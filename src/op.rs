//! The closed set of host operations and the request that carries one.

use vstd::prelude::*;

verus! {

/// The operations defined by ARM. Codes below `0x100` are reserved for them.
#[derive(Clone, Copy, Debug, PartialEq, Eq, Structural)]
pub enum Op {
    Open,
    Close,
    Write0,
    Write,
    Read,
    ReadC,
    IsTty,
    Seek,
    FLen,
    TmpName,
    Remove,
    Rename,
    Clock,
    Time,
    System,
    Errno,
    GetCmdLine,
    HeapInfo,
    Exit,
    Elapsed,
    TickFreq,
}

/// The wire code of each operation.
pub open spec fn op_code(op: Op) -> u32 {
    match op {
        Op::Open => 0x1,
        Op::Close => 0x2,
        Op::Write0 => 0x4,
        Op::Write => 0x5,
        Op::Read => 0x6,
        Op::ReadC => 0x7,
        Op::IsTty => 0x9,
        Op::Seek => 0xA,
        Op::FLen => 0xC,
        Op::TmpName => 0xD,
        Op::Remove => 0xE,
        Op::Rename => 0xF,
        Op::Clock => 0x10,
        Op::Time => 0x11,
        Op::System => 0x12,
        Op::Errno => 0x13,
        Op::GetCmdLine => 0x15,
        Op::HeapInfo => 0x16,
        Op::Exit => 0x18,
        Op::Elapsed => 0x30,
        Op::TickFreq => 0x31,
    }
}

impl Op {
    /// The code that the trap carries for this operation.
    pub fn code(self) -> (r: u32)
        ensures
            r == op_code(self),
    {
        match self {
            Op::Open => 0x1,
            Op::Close => 0x2,
            Op::Write0 => 0x4,
            Op::Write => 0x5,
            Op::Read => 0x6,
            Op::ReadC => 0x7,
            Op::IsTty => 0x9,
            Op::Seek => 0xA,
            Op::FLen => 0xC,
            Op::TmpName => 0xD,
            Op::Remove => 0xE,
            Op::Rename => 0xF,
            Op::Clock => 0x10,
            Op::Time => 0x11,
            Op::System => 0x12,
            Op::Errno => 0x13,
            Op::GetCmdLine => 0x15,
            Op::HeapInfo => 0x16,
            Op::Exit => 0x18,
            Op::Elapsed => 0x30,
            Op::TickFreq => 0x31,
        }
    }
}

/// What the second register of the trap points at.
#[derive(Debug)]
pub enum Param {
    /// No argument: the register holds `0`.
    Zero,
    /// An argument block of machine words. The host may write into it, and
    /// the words it holds after the trap are read back by the decoders.
    Block(Vec<usize>),
    /// A NUL-terminated byte string.
    Text(Vec<u8>),
}

/// One host request: an operation and what its parameter register points at.
#[derive(Debug)]
pub struct Call {
    pub op: Op,
    pub param: Param,
}

/// A request whose parameter is an argument block with exactly these words.
pub open spec fn is_block_call(c: Call, op: Op, words: Seq<usize>) -> bool {
    &&& c.op == op
    &&& c.param matches Param::Block(b)
    &&& b@ == words
}

/// A request with no argument.
pub open spec fn is_bare_call(c: Call, op: Op) -> bool {
    c.op == op && c.param is Zero
}

/// Builds a request with no argument.
pub fn bare_call(op: Op) -> (c: Call)
    ensures
        is_bare_call(c, op),
{
    Call { op, param: Param::Zero }
}

/// A request whose argument block is the one word `a`.
pub fn block1(op: Op, a: usize) -> (c: Call)
    ensures
        is_block_call(c, op, seq![a]),
{
    let mut words: Vec<usize> = Vec::new();
    words.push(a);
    assert(words@ =~= seq![a]);
    Call { op, param: Param::Block(words) }
}

/// A request whose argument block is the words `a`, `b`.
pub fn block2(op: Op, a: usize, b: usize) -> (c: Call)
    ensures
        is_block_call(c, op, seq![a, b]),
{
    let mut words: Vec<usize> = Vec::new();
    words.push(a);
    words.push(b);
    assert(words@ =~= seq![a, b]);
    Call { op, param: Param::Block(words) }
}

/// A request whose argument block is the words `a`, `b`, `c`.
pub fn block3(op: Op, a: usize, b: usize, c: usize) -> (r: Call)
    ensures
        is_block_call(r, op, seq![a, b, c]),
{
    let mut words: Vec<usize> = Vec::new();
    words.push(a);
    words.push(b);
    words.push(c);
    assert(words@ =~= seq![a, b, c]);
    Call { op, param: Param::Block(words) }
}

/// A request whose argument block is the words `a`, `b`, `c`, `d`.
pub fn block4(op: Op, a: usize, b: usize, c: usize, d: usize) -> (r: Call)
    ensures
        is_block_call(r, op, seq![a, b, c, d]),
{
    let mut words: Vec<usize> = Vec::new();
    words.push(a);
    words.push(b);
    words.push(c);
    words.push(d);
    assert(words@ =~= seq![a, b, c, d]);
    Call { op, param: Param::Block(words) }
}

} // verus!

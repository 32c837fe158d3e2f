//! The debugger's console: single-byte reads and NUL-terminated writes.

use vstd::prelude::*;
use crate::op::{bare_call, is_bare_call, Call, Op, Param};

verus! {

/// The most data bytes one console write carries; the host reads each piece
/// up to its NUL terminator.
pub const CHUNK_LEN: usize = 255;

/// How many console writes a string of `n` bytes takes.
pub open spec fn chunk_count(n: nat) -> nat {
    if n % 255 == 0 {
        n / 255
    } else {
        n / 255 + 1
    }
}

/// The `i`-th console write of `s`: the next at most 255 bytes, then NUL.
pub open spec fn chunk(s: Seq<u8>, i: int) -> Seq<u8> {
    let start = 255 * i;
    let end = if start + 255 <= s.len() {
        start + 255
    } else {
        s.len() as int
    };
    s.subrange(start, end).push(0)
}

/// The console requests that write `s`, in order.
pub open spec fn is_console_write(calls: Seq<Call>, s: Seq<u8>) -> bool {
    &&& calls.len() == chunk_count(s.len())
    &&& forall|i: int|
        0 <= i < calls.len() ==> {
            &&& (#[trigger] calls[i]).op == Op::Write0
            &&& calls[i].param matches Param::Text(t)
            &&& t@ == chunk(s, i)
        }
}

/// Every byte of `s` is carried, in order, by one console write: byte `j`
/// is byte `j % 255` of write `j / 255`. Each write ends with its NUL after at
/// most 255 bytes, and all but the last carry exactly 255.
pub proof fn console_chunks_cover(s: Seq<u8>, j: int, i: int)
    requires
        0 <= j < s.len(),
        0 <= i < chunk_count(s.len()),
    ensures
        j / 255 < chunk_count(s.len()),
        chunk(s, j / 255)[j % 255] == s[j],
        chunk(s, i).len() <= 256,
        chunk(s, i).last() == 0,
        i + 1 < chunk_count(s.len()) ==> chunk(s, i).len() == 256,
        i + 1 == chunk_count(s.len()) ==> chunk(s, i).len() == s.len() - 255 * i + 1,
{
    let n = s.len();
    assert(j / 255 < chunk_count(n)) by (nonlinear_arith)
        requires
            0 <= j < n,
    ;
    assert(255 * (j / 255) <= j < 255 * (j / 255) + 255) by (nonlinear_arith)
        requires
            0 <= j,
    ;
    assert(255 * i < n) by (nonlinear_arith)
        requires
            0 <= i < chunk_count(n),
    ;
    assert(i + 1 < chunk_count(n) ==> 255 * i + 255 <= n) by (nonlinear_arith)
        requires
            0 <= i,
    ;
    assert(i + 1 == chunk_count(n) ==> n <= 255 * i + 255) by (nonlinear_arith)
        requires
            0 <= i,
    ;
}

/// The debugger's console.
#[derive(Clone, Copy, Debug)]
pub struct DebugCon;

impl DebugCon {
    /// The request that reads one byte from the console; it blocks until the
    /// host has one.
    pub fn read(&self) -> (c: Call)
        ensures
            is_bare_call(c, Op::ReadC),
    {
        bare_call(Op::ReadC)
    }

    /// The byte a console read returned: the low byte of the word.
    pub fn read_result(ret: usize) -> (r: u8)
        ensures
            r as int == ret % 256,
    {
        (ret % 256) as u8
    }

    /// The requests that write `s` to the console.
    ///
    /// The host takes NUL-terminated strings, so `s` goes out in pieces of at
    /// most 255 bytes, each followed by a NUL. A multi-byte character may be
    /// split between two pieces; the host's display joins it again.
    pub fn write_str(&self, s: &[u8]) -> (r: Vec<Call>)
        ensures
            is_console_write(r@, s@),
    {
        let n = s.len();
        let count: usize = if n % CHUNK_LEN == 0 {
            n / CHUNK_LEN
        } else {
            n / CHUNK_LEN + 1
        };
        let mut out: Vec<Call> = Vec::new();
        let mut k: usize = 0;
        while k < count
            invariant
                n == s@.len(),
                count == chunk_count(n as nat),
                k <= count,
                out@.len() == k,
                forall|i: int|
                    0 <= i < k ==> {
                        &&& (#[trigger] out@[i]).op == Op::Write0
                        &&& out@[i].param matches Param::Text(t)
                        &&& t@ == chunk(s@, i)
                    },
            decreases count - k,
        {
            assert(255 * k < n) by (nonlinear_arith)
                requires
                    k < count,
                    count == chunk_count(n as nat),
            ;
            let start = CHUNK_LEN * k;
            let end = if n - start >= CHUNK_LEN {
                start + CHUNK_LEN
            } else {
                n
            };
            let mut piece: Vec<u8> = Vec::new();
            let mut j = start;
            while j < end
                invariant
                    start <= j <= end <= n == s@.len(),
                    piece@ == s@.subrange(start as int, j as int),
                decreases end - j,
            {
                piece.push(s[j]);
                j += 1;
                assert(piece@ =~= s@.subrange(start as int, j as int));
            }
            piece.push(0);
            assert(piece@ == chunk(s@, k as int));
            out.push(Call { op: Op::Write0, param: Param::Text(piece) });
            k += 1;
        }
        out
    }
}

} // verus!

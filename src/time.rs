//! Clocks of the host.

use vstd::prelude::*;
use crate::error::{check, FAILURE};
use crate::op::{bare_call, block1, is_bare_call, is_block_call, Call, Op};

verus! {

/// The request for the hundredths of a second since execution started. Its
/// word goes through `check`.
pub fn clock() -> (c: Call)
    ensures
        is_bare_call(c, Op::Clock),
{
    bare_call(Op::Clock)
}

/// The request for the seconds since the UNIX epoch. Its word goes through
/// `check`.
pub fn time() -> (c: Call)
    ensures
        is_bare_call(c, Op::Time),
{
    bare_call(Op::Time)
}

/// The request for the ticks since execution started. The host writes the
/// count into the one word of the argument block.
pub fn elapsed() -> (c: Call)
    ensures
        is_block_call(c, Op::Elapsed, seq![0usize]),
{
    block1(Op::Elapsed, 0)
}

/// The tick count, from the returned word and the argument block that the
/// host filled in.
pub fn elapsed_result(ret: usize, block: &[usize]) -> (r: Result<u64, ()>)
    requires
        block@.len() == 1,
    ensures
        r is Err <==> ret == FAILURE,
        r is Ok ==> r == Ok::<u64, ()>(block@[0] as u64),
{
    match check(ret) {
        Ok(_) => Ok(block[0] as u64),
        Err(()) => Err(()),
    }
}

/// The request for the tick frequency. A host without tick support fails it.
/// Its word goes through `check`.
pub fn tick_freq() -> (c: Call)
    ensures
        is_bare_call(c, Op::TickFreq),
{
    bare_call(Op::TickFreq)
}

} // verus!

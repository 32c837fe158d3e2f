//! Where the image's heap and stack lie.

use vstd::prelude::*;
use crate::error::{check, FAILURE};
use crate::op::{block4, is_block_call, Call, Op};

verus! {

/// The system's stack and heap parameters.
#[derive(Clone, Copy, Debug, PartialEq, Eq, Structural)]
pub struct HeapInfo {
    /// Base address of the heap.
    pub heap_base: usize,
    /// Size limit, in bytes, of the heap.
    pub heap_limit: usize,
    /// Base address of the stack.
    pub stack_base: usize,
    /// Size limit, in bytes, of the stack.
    pub stack_limit: usize,
}

/// The request for the heap and stack parameters. The host fills the four
/// words of the argument block in place.
pub fn heap_info() -> (c: Call)
    ensures
        is_block_call(c, Op::HeapInfo, seq![0usize, 0usize, 0usize, 0usize]),
{
    block4(Op::HeapInfo, 0, 0, 0, 0)
}

/// The parameters, from the returned word and the block the host filled in.
pub fn heap_info_result(ret: usize, block: &[usize]) -> (r: Result<HeapInfo, ()>)
    requires
        block@.len() == 4,
    ensures
        r is Err <==> ret == FAILURE,
        r is Ok ==> r == Ok::<HeapInfo, ()>(
            HeapInfo {
                heap_base: block@[0],
                heap_limit: block@[1],
                stack_base: block@[2],
                stack_limit: block@[3],
            },
        ),
{
    match check(ret) {
        Ok(_) => Ok(
            HeapInfo {
                heap_base: block[0],
                heap_limit: block[1],
                stack_base: block[2],
                stack_limit: block[3],
            },
        ),
        Err(()) => Err(()),
    }
}

} // verus!

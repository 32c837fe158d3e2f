//! The command line the program was started with.

use vstd::prelude::*;
use crate::error::{check, FAILURE};
use crate::op::{block2, is_block_call, Call, Op};

verus! {

/// The request that has the host copy the command line into the `buf_len`
/// bytes at `buf_addr`. Hosts support at least 80 bytes.
pub fn cmd_line(buf_addr: usize, buf_len: usize) -> (c: Call)
    ensures
        is_block_call(c, Op::GetCmdLine, seq![buf_addr, buf_len]),
{
    block2(Op::GetCmdLine, buf_addr, buf_len)
}

/// Where the command line lies, from the returned word and the argument
/// block, in which the host has left the address and the length it used.
pub fn cmd_line_result(ret: usize, block: &[usize]) -> (r: Result<(usize, usize), ()>)
    requires
        block@.len() == 2,
    ensures
        r is Err <==> ret == FAILURE,
        r is Ok ==> r == Ok::<(usize, usize), ()>((block@[0], block@[1])),
{
    match check(ret) {
        Ok(_) => Ok((block[0], block[1])),
        Err(()) => Err(()),
    }
}

} // verus!

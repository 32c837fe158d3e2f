//! The host's error number and shell.

use vstd::prelude::*;
use crate::fs::{nul_terminated, text_len};
use crate::op::{bare_call, block2, is_bare_call, is_block_call, Call, Op};

verus! {

/// The request for the host's `errno`. This query never fails: every word it
/// returns is meaningful.
pub fn errno() -> (c: Call)
    ensures
        is_bare_call(c, Op::Errno),
{
    bare_call(Op::Errno)
}

/// The host's `errno` from the returned word: its low 32 bits, signed.
pub fn errno_result(ret: usize) -> (r: i32)
    ensures
        r == ret as i32,
{
    ret as i32
}

/// The request that runs the NUL-terminated command `cmd`, which lies at
/// `cmd_addr`, in the host's shell.
pub fn system(cmd: &[u8], cmd_addr: usize) -> (c: Call)
    requires
        nul_terminated(cmd@),
    ensures
        is_block_call(c, Op::System, seq![cmd_addr, text_len(cmd@)]),
{
    block2(Op::System, cmd_addr, cmd.len() - 1)
}

/// The exit code of the command, from the returned word: its low 32 bits,
/// signed. Every word is an exit code, so there is no failure to check.
pub fn system_result(ret: usize) -> (r: i32)
    ensures
        r == ret as i32,
{
    ret as i32
}

} // verus!

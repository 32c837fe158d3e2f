//! The guest side of the ARM semihosting protocol.
//!
//! Bare-metal code running under a debugger reaches host services (console,
//! files, clock, exit) by a single trap instruction that carries an operation
//! code and the address of an argument block. This library holds everything
//! about that protocol that is not the trap itself: the operation codes, the
//! layout of each argument block, the reading of each returned word, and the
//! lifecycle of host file handles. The trap is issued by the embedding
//! program, which hands each returned word back to the decoding functions here.

use vstd::prelude::*;

pub mod error;
pub mod op;
pub mod fs;
pub mod dbg;
pub mod exit;
pub mod sys;
pub mod time;
pub mod heap;
pub mod cmd;
pub mod exts;

verus! {

} // verus!

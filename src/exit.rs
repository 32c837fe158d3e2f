//! Reporting to the host that execution has stopped.

use vstd::prelude::*;
use crate::op::{block2, is_block_call, Call, Op};

verus! {

/// Why execution stopped. Most variants name an exception, for exception
/// handlers to report; `ApplicationExit` reports that the program finished
/// and returned an exit code.
#[derive(Clone, Copy, Debug, PartialEq, Eq, Structural)]
pub enum ExitReason {
    BranchThroughZero,
    UndefinedInstr,
    SoftwareInterrupt,
    PrefetchAbort,
    DataAbort,
    AddressException,
    IRQ,
    FIQ,
    BreakPoint,
    WatchPoint,
    StepComplete,
    RunTimeErrorUnknown,
    InternalError,
    UserInterruption,
    ApplicationExit,
    StackOverflow,
    DivisionByZero,
    OSSpecific,
}

/// The host's number for each reason.
pub open spec fn reason_code(r: ExitReason) -> usize {
    match r {
        ExitReason::BranchThroughZero => 0x0,
        ExitReason::UndefinedInstr => 0x1,
        ExitReason::SoftwareInterrupt => 0x2,
        ExitReason::PrefetchAbort => 0x3,
        ExitReason::DataAbort => 0x4,
        ExitReason::AddressException => 0x5,
        ExitReason::IRQ => 0x6,
        ExitReason::FIQ => 0x7,
        ExitReason::BreakPoint => 0x20,
        ExitReason::WatchPoint => 0x21,
        ExitReason::StepComplete => 0x22,
        ExitReason::RunTimeErrorUnknown => 0x23,
        ExitReason::InternalError => 0x24,
        ExitReason::UserInterruption => 0x25,
        ExitReason::ApplicationExit => 0x26,
        ExitReason::StackOverflow => 0x27,
        ExitReason::DivisionByZero => 0x28,
        ExitReason::OSSpecific => 0x29,
    }
}

/// The marker that the host expects in the bits above the reason code.
pub const EXCEPTION_MARKER: usize = 0x2_00_00;

/// The argument block of an exit: the marker combined with the reason code,
/// then the exit code. The reason code sits below the marker's bit, so the
/// sum is the bitwise or of the two.
pub open spec fn exit_block(reason: ExitReason, code: u32) -> Seq<usize> {
    seq![(EXCEPTION_MARKER + reason_code(reason)) as usize, code as usize]
}

impl ExitReason {
    /// The host's number for this reason.
    pub fn code(self) -> (r: usize)
        ensures
            r == reason_code(self),
            r < 0x100,
    {
        match self {
            ExitReason::BranchThroughZero => 0x0,
            ExitReason::UndefinedInstr => 0x1,
            ExitReason::SoftwareInterrupt => 0x2,
            ExitReason::PrefetchAbort => 0x3,
            ExitReason::DataAbort => 0x4,
            ExitReason::AddressException => 0x5,
            ExitReason::IRQ => 0x6,
            ExitReason::FIQ => 0x7,
            ExitReason::BreakPoint => 0x20,
            ExitReason::WatchPoint => 0x21,
            ExitReason::StepComplete => 0x22,
            ExitReason::RunTimeErrorUnknown => 0x23,
            ExitReason::InternalError => 0x24,
            ExitReason::UserInterruption => 0x25,
            ExitReason::ApplicationExit => 0x26,
            ExitReason::StackOverflow => 0x27,
            ExitReason::DivisionByZero => 0x28,
            ExitReason::OSSpecific => 0x29,
        }
    }
}

/// The request that reports the end of execution with `reason` and `code`.
///
/// Issuing it hands control to the host for good: the code that issues it
/// must treat the point after the trap as unreachable.
pub fn exit(reason: ExitReason, code: u32) -> (c: Call)
    ensures
        is_block_call(c, Op::Exit, exit_block(reason, code)),
{
    block2(Op::Exit, EXCEPTION_MARKER + reason.code(), code as usize)
}

} // verus!

//! A DWARF call-frame unwinder driven by `.eh_frame_hdr`.
use vstd::prelude::*;
use core::ops::Range;

pub mod ehframe;
pub mod context;
pub mod entries;
pub mod machine;
pub mod reader;

verus! {

/// The phase of exception handling.
#[derive(Copy, Clone, Debug, PartialEq, Eq, Structural)]
pub enum ExceptionHandlingPhase {
    Search,
    Cleanup,
}

/// Failures of unwinding.
#[derive(Debug)]
pub enum UnwindError {
    BadRegister,
    BadOpcode(u8),
    BadOperand(u8),
    InvalidOp(u8),
    InvalidApplication,
    InvalidPc(usize),
    UnknownRegister,
    UnmanagedRegister,
    ParsingFailure,
    UnwindablePc(usize),
    MemoryOutOfBound(usize, Range<usize>),
    PersonalityFailure,
}

} // verus!

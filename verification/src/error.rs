//! Structured errors for the directory-stream binding.
//!
//! The OS reports failure through a per-thread error slot: a failing call
//! stores a nonzero code there and returns a null or negative result. Every
//! failure is captured at its call site into one of the variants below, so a
//! caller can match on what failed and still reach the raw code.

use vstd::prelude::*;

verus! {

/// The value the OS error slot holds when no error has been recorded, and
/// the code a cleared slot shows after a call that recorded none.
pub const NO_ERRNO: i32 = 0;

/// A failure of one native directory-stream call, carrying the raw OS error
/// code that the failing call left in the error slot.
#[derive(Clone, Copy, Debug, PartialEq, Eq, Structural)]
pub enum OsError {
    /// An open (from a path or from a descriptor) returned a null handle.
    OpenFailure(i32),
    /// A read returned null while the error slot was written during the
    /// call; distinct from end-of-stream, which writes no code.
    ReadFailure(i32),
    /// A query on an open stream, such as asking for its descriptor,
    /// reported failure.
    DescriptorFailure(i32),
}

impl OsError {
    /// The raw OS error code carried, whichever call failed.
    pub open spec fn spec_code(self) -> i32 {
        match self {
            OsError::OpenFailure(code) => code,
            OsError::ReadFailure(code) => code,
            OsError::DescriptorFailure(code) => code,
        }
    }

    /// Return the raw OS error code carried, whichever call failed.
    pub fn code(&self) -> (code: i32)
        ensures
            code == self.spec_code(),
    {
        match self {
            OsError::OpenFailure(code) => *code,
            OsError::ReadFailure(code) => *code,
            OsError::DescriptorFailure(code) => *code,
        }
    }
}

} // verus!

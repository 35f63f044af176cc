//! Failures that object operations report to their caller.
use vstd::prelude::*;

verus! {

/// Why an object operation did not go through.
#[derive(Debug, PartialEq, Eq)]
pub enum Error {
    /// The representation does not allow the operation at all; the text says
    /// which operation was refused.
    UnsupportedOperation(String),
    /// A guard was asked for while another guard on the same cell, which
    /// excludes it, was still held.
    BorrowConflict,
}

impl Clone for Error {
    fn clone(&self) -> (copy: Self)
        ensures
            copy == *self,
    {
        match self {
            Error::UnsupportedOperation(text) => Error::UnsupportedOperation(text.clone()),
            Error::BorrowConflict => Error::BorrowConflict,
        }
    }
}

impl Error {
    /// Whether this is `UnsupportedOperation` with exactly the text `reason`.
    pub open spec fn is_unsupported(self, reason: Seq<char>) -> bool {
        match self {
            Error::UnsupportedOperation(text) => text@ == reason,
            Error::BorrowConflict => false,
        }
    }

    /// The refusal of an operation, with the text shown to the script.
    pub fn unsupported(reason: &str) -> (e: Error)
        ensures
            e.is_unsupported(reason@),
    {
        Error::UnsupportedOperation(reason.to_owned())
    }
}

} // verus!

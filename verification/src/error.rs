//! The ways in which building or evaluating a definition fails.
use vstd::prelude::*;

verus! {

/// Why an operation failed.
#[derive(Clone, Copy, PartialEq, Eq, Structural, Debug)]
pub enum TracksError {
    /// A name is none of the context's slots.
    UnknownSlot,
    /// A value is not of the case that its place asks for.
    WrongCase,
    /// The numbers at hand are not as many as the case needs.
    ArityMismatch,
    /// The definition's text is malformed.
    Configuration,
}

impl TracksError {
    /// A short description of the error.
    pub fn message(&self) -> (r: &'static str)
        ensures
            r@ == match *self {
                TracksError::UnknownSlot => "base provider not found"@,
                TracksError::WrongCase => "value is not of the slot's case"@,
                TracksError::ArityMismatch => "wrong number of values"@,
                TracksError::Configuration => "malformed point definition"@,
            },
    {
        match self {
            TracksError::UnknownSlot => "base provider not found",
            TracksError::WrongCase => "value is not of the slot's case",
            TracksError::ArityMismatch => "wrong number of values",
            TracksError::Configuration => "malformed point definition",
        }
    }
}

} // verus!

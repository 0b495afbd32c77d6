//! Errors for malformed validator identifiers.

use vstd::prelude::*;

use crate::internal::DottedIdentifierError;

verus! {

/// A structural reason a validator identifier is malformed.
#[derive(Clone, Copy, Debug, PartialEq, Eq, Structural)]
pub enum ValidatorIdError {
    /// The identifier is empty.
    Empty,
    /// A dot-separated segment is empty.
    EmptySegment,
    /// A segment starts without an ASCII letter or holds another character
    /// than an ASCII letter, digit or `_`.
    InvalidSegment,
}

impl ValidatorIdError {
    /// The identifier error for a dotted identifier error.
    pub open spec fn from_dotted(error: DottedIdentifierError) -> Self {
        match error {
            DottedIdentifierError::Empty => ValidatorIdError::Empty,
            DottedIdentifierError::EmptySegment => ValidatorIdError::EmptySegment,
            DottedIdentifierError::InvalidSegment => ValidatorIdError::InvalidSegment,
        }
    }

    /// Converts a dotted identifier error.
    pub(crate) fn from_dotted_error(error: DottedIdentifierError) -> (r: Self)
        ensures
            r == Self::from_dotted(error),
    {
        match error {
            DottedIdentifierError::Empty => ValidatorIdError::Empty,
            DottedIdentifierError::EmptySegment => ValidatorIdError::EmptySegment,
            DottedIdentifierError::InvalidSegment => ValidatorIdError::InvalidSegment,
        }
    }
}

} // verus!

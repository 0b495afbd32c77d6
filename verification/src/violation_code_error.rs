//! Errors for malformed violation codes.

use vstd::prelude::*;

use crate::internal::DottedIdentifierError;

verus! {

/// A structural reason a violation code is malformed.
#[derive(Clone, Copy, Debug, PartialEq, Eq, Structural)]
pub enum ViolationCodeError {
    /// The code is empty.
    Empty,
    /// A dot-separated segment is empty.
    EmptySegment,
    /// A segment starts without an ASCII letter or holds another character
    /// than an ASCII letter, digit or `_`.
    InvalidSegment,
}

impl ViolationCodeError {
    /// The code error for a dotted identifier error.
    pub open spec fn from_dotted(error: DottedIdentifierError) -> Self {
        match error {
            DottedIdentifierError::Empty => ViolationCodeError::Empty,
            DottedIdentifierError::EmptySegment => ViolationCodeError::EmptySegment,
            DottedIdentifierError::InvalidSegment => ViolationCodeError::InvalidSegment,
        }
    }

    /// Converts a dotted code error.
    pub(crate) fn from_dotted_error(error: DottedIdentifierError) -> (r: Self)
        ensures
            r == Self::from_dotted(error),
    {
        match error {
            DottedIdentifierError::Empty => ViolationCodeError::Empty,
            DottedIdentifierError::EmptySegment => ViolationCodeError::EmptySegment,
            DottedIdentifierError::InvalidSegment => ViolationCodeError::InvalidSegment,
        }
    }
}

} // verus!

//! Errors produced by the shared dotted identifier parser.

use vstd::prelude::*;

verus! {

/// A structural reason a dotted identifier does not match the protocol.
#[derive(Clone, Copy, Debug, PartialEq, Eq, Structural)]
pub enum DottedIdentifierError {
    /// The complete identifier is empty.
    Empty,
    /// A dot-separated identifier segment is empty.
    EmptySegment,
    /// A segment contains an invalid character or initial byte.
    InvalidSegment,
}

} // verus!

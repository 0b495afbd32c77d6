//! Safe, structured validation violation parameters.

use vstd::prelude::*;

verus! {

/// A parameter that is safe to carry in a public violation.
#[derive(Clone, Copy, Debug, PartialEq, Eq)]
pub enum ViolationParam {
    /// A boolean parameter.
    Bool(bool),
    /// A signed integer parameter.
    Signed(i128),
    /// An unsigned integer parameter.
    Unsigned(u128),
    /// A static, program-declared token.
    Token(&'static str),
}

} // verus!

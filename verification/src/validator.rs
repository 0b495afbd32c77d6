//! The typed validation contract.

use vstd::prelude::*;

verus! {

/// Validates borrowed values of type `T` with a context of type `C`.
///
/// Implementations report a domain-specific error for an invalid value.
pub trait Validator<T: ?Sized, C: ?Sized = ()> {
    /// The domain error describing why a value is invalid.
    type Error;

    /// Whether this validator accepts `value` in `context`: `validate`
    /// returns `Ok` exactly for the values this accepts.
    spec fn accepts(&self, value: &T, context: &C) -> bool;

    /// Whether `error` is an error this validator can report for `value` in
    /// `context`.
    spec fn rejects(&self, value: &T, context: &C, error: Self::Error) -> bool;

    /// Validates one value.
    ///
    /// # Errors
    ///
    /// Returns the domain error when `value` is invalid.
    fn validate(&self, value: &T, context: &C) -> (r: Result<(), Self::Error>)
        ensures
            r is Ok <==> self.accepts(value, context),
            r matches Err(error) ==> self.rejects(value, context, error);
}

} // verus!

//! Adapter from typed validators to the erased validation boundary.

use vstd::prelude::*;

use super::mapper_total;
use super::TypedValidatorAdapter;
use crate::Validator;
use crate::ViolationDraft;

verus! {

/// Prepares a typed validator using a domain-error mapper.
///
/// The returned adapter rejects erased inputs whose exact concrete type differs
/// from `T` and converts each domain error with `map_error`; callers should
/// ensure the mapper does not retain raw input in the resulting draft. Box the
/// adapter to obtain a `Box<dyn PreparedValidator>`.
pub fn prepare_typed_validator<T, V, M>(validator: V, map_error: M) -> (r: TypedValidatorAdapter<T, V, M>)
where
    T: 'static + Send + Sync,
    V: Validator<T, ()> + Send + Sync + 'static,
    V::Error: Send + Sync,
    M: Fn(V::Error) -> ViolationDraft + Send + Sync + 'static,
    requires
        mapper_total::<V::Error, M>(map_error),
    ensures
        r.spec_validator() == validator,
        r.spec_map_error() == map_error,
{
    TypedValidatorAdapter::new(validator, map_error)
}

} // verus!

//! Adapter from typed text validators to the erased validation boundary.

use vstd::prelude::*;

use super::mapper_total;
use super::TextValidatorAdapter;
use crate::Validator;
use crate::ViolationDraft;

verus! {

/// Prepares a text validator using a domain-error mapper.
///
/// The returned adapter rejects non-text erased inputs and converts each domain
/// error with `map_error`; callers should ensure the mapper does not retain raw
/// input in the resulting draft. Box the adapter to obtain a
/// `Box<dyn PreparedValidator>`.
pub fn prepare_text_validator<V, M>(validator: V, map_error: M) -> (r: TextValidatorAdapter<V, M>)
where
    V: Validator<str, ()> + Send + Sync + 'static,
    V::Error: Send + Sync,
    M: Fn(V::Error) -> ViolationDraft + Send + Sync + 'static,
    requires
        mapper_total::<V::Error, M>(map_error),
    ensures
        r.spec_validator() == validator,
        r.spec_map_error() == map_error,
{
    TextValidatorAdapter::new(validator, map_error)
}

} // verus!

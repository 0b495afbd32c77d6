//! Adapter from text validators that consume dependency context.

use vstd::prelude::*;

use super::mapper_total;
use super::BoundValidationContext;
use super::ContextualTextValidatorAdapter;
use crate::Validator;
use crate::ViolationDraft;

verus! {

/// Prepares a text validator that reads its declared dependency slots.
///
/// The adapter passes the checked [`BoundValidationContext`] directly to the
/// validator. A bound validator checks dependency count, shape and
/// optionality before this adapter runs. Domain errors are converted with
/// `map_error`; callers must keep raw input out of the resulting draft.
pub fn prepare_contextual_text_validator<V, E, M>(validator: V, map_error: M) -> (r: ContextualTextValidatorAdapter<E, V, M>)
where
    V: for<'a> Validator<str, BoundValidationContext<'a>, Error = E> + Send + Sync + 'static,
    E: Send + Sync + 'static,
    M: Fn(E) -> ViolationDraft + Send + Sync + 'static,
    requires
        mapper_total::<E, M>(map_error),
    ensures
        r.spec_validator() == validator,
        r.spec_map_error() == map_error,
{
    ContextualTextValidatorAdapter::new(validator, map_error)
}

} // verus!

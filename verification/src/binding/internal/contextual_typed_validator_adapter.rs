//! Adapter for typed validators with checked dependency context.

use vstd::prelude::*;

use super::is_type_mismatch;

use super::mapper_total;
use super::reports_verdict;
use super::super::valid_or_one_draft;
use super::super::BoundValidationContext;
use super::super::ExecutionError;
use super::super::ExecutionErrorKind;
use super::super::PreparedOutcome;
use super::super::PreparedValidator;
use super::super::ValidationValue;
use crate::Validator;
use crate::ViolationDraft;

verus! {

/// Owns a contextual typed validator and the mapper for its domain errors.
#[verifier::reject_recursive_types(E)]
#[verifier::reject_recursive_types(T)]
pub struct ContextualTypedValidatorAdapter<T, E, V, M>
where
    T: 'static,
    V: for<'a> Validator<T, BoundValidationContext<'a>, Error = E>,
    M: Fn(E) -> ViolationDraft,
{
    /// Validator invoked with a checked typed value and dependency context.
    validator: V,
    /// Mapper that creates a safe violation draft from the domain error.
    map_error: M,
    /// Marks the domain error type.
    marker: std::marker::PhantomData<E>,
    /// Marks the borrowed value type accepted by `validator`.
    input: std::marker::PhantomData<T>,
}

impl<T, E, V, M> ContextualTypedValidatorAdapter<T, E, V, M>
where
    T: 'static,
    V: for<'a> Validator<T, BoundValidationContext<'a>, Error = E>,
    M: Fn(E) -> ViolationDraft,
{
    #[verifier::type_invariant]
    spec fn mapper_callable(self) -> bool {
        mapper_total::<E, M>(self.map_error)
    }

    /// The wrapped validator.
    pub closed spec fn spec_validator(self) -> V {
        self.validator
    }

    /// The mapper from domain errors to violation drafts.
    pub closed spec fn spec_map_error(self) -> M {
        self.map_error
    }

    /// Creates an adapter from a validator and its domain error mapper.
    pub fn new(validator: V, map_error: M) -> (r: Self)
        requires
            mapper_total::<E, M>(map_error),
        ensures
            r.spec_validator() == validator,
            r.spec_map_error() == map_error,
    {
        ContextualTypedValidatorAdapter {
            validator,
            map_error,
            marker: std::marker::PhantomData,
            input: std::marker::PhantomData,
        }
    }
}

impl<T, E, V, M> PreparedValidator for ContextualTypedValidatorAdapter<T, E, V, M>
where
    T: 'static + Send + Sync,
    E: Send + Sync,
    V: for<'a> Validator<T, BoundValidationContext<'a>, Error = E> + Send + Sync,
    M: Fn(E) -> ViolationDraft + Send + Sync,
{
    /// A value that is not typed gives the type mismatch, the only error;
    /// an outcome follows the validator's decision on some value of type `T`
    /// in the same context.
    open spec fn spec_validates(&self, value: ValidationValue, context: BoundValidationContext, result: Result<PreparedOutcome, ExecutionError>) -> bool {
        &&& !(value is Typed) ==> is_type_mismatch(result)
        &&& result is Err ==> is_type_mismatch(result)
        &&& result matches Ok(outcome) ==> exists|typed: &T|
            reports_verdict(self.spec_validator(), typed, &context, self.spec_map_error(), outcome)
    }

    /// Validates a checked typed value with its dependency context.
    fn validate(
        &self,
        value: ValidationValue<'_>,
        context: &BoundValidationContext<'_>,
    ) -> (r: Result<PreparedOutcome, ExecutionError>)
        ensures
            !(value is Typed) ==> (r matches Err(e) && e@ == ExecutionError::bare(ExecutionErrorKind::InputTypeMismatch)),
            r matches Err(e) ==> e@ == ExecutionError::bare(ExecutionErrorKind::InputTypeMismatch),
            r matches Ok(outcome) ==> valid_or_one_draft(outcome),
            r matches Ok(outcome) ==> exists|typed: &T|
                reports_verdict(self.spec_validator(), typed, context, self.spec_map_error(), outcome),
    {
        let typed = match value.typed::<T>() {
            Some(typed) => typed,
            None => return Err(ExecutionError::new(ExecutionErrorKind::InputTypeMismatch)),
        };
        let result = match self.validator.validate(typed, context) {
            Ok(()) => Ok(PreparedOutcome::valid()),
            Err(error) => {
                proof {
                    use_type_invariant(self);
                }
                let ghost reported = error;
                let draft = (self.map_error)(error);
                let drafts = vec![draft];
                assert(drafts@[0] == draft);
                assert(self.spec_validator().rejects(typed, context, reported)
                    && call_ensures(self.spec_map_error(), (reported,), drafts@[0]));
                Ok(PreparedOutcome::Invalid(drafts))
            },
        };
        proof {
            let outcome = result->Ok_0;
            assert(reports_verdict(self.spec_validator(), typed, context, self.spec_map_error(), outcome));
        }
        result
    }
}

} // verus!

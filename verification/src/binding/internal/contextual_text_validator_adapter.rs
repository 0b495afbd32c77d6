//! Adapter for text validators with checked dependency context.

use vstd::prelude::*;

use super::is_type_mismatch;

use super::mapper_total;
use super::reports_verdict;
use super::super::valid_or_one_draft;
use super::super::BoundValidationContext;
use super::super::ExecutionError;
use super::super::ExecutionErrorKind;
use super::super::PreparedOutcome;
use super::super::PreparedValidator;
use super::super::ValidationValue;
use crate::Validator;
use crate::ViolationDraft;

verus! {

/// Owns a contextual text validator and the mapper for its domain errors.
#[verifier::reject_recursive_types(E)]
pub struct ContextualTextValidatorAdapter<E, V, M>
where
    V: for<'a> Validator<str, BoundValidationContext<'a>, Error = E>,
    M: Fn(E) -> ViolationDraft,
{
    /// Validator invoked with a checked text value and dependency context.
    validator: V,
    /// Mapper that creates a safe violation draft from the domain error.
    map_error: M,
    /// Marks the domain error type.
    marker: std::marker::PhantomData<E>,
}

impl<E, V, M> ContextualTextValidatorAdapter<E, V, M>
where
    V: for<'a> Validator<str, BoundValidationContext<'a>, Error = E>,
    M: Fn(E) -> ViolationDraft,
{
    #[verifier::type_invariant]
    spec fn mapper_callable(self) -> bool {
        mapper_total::<E, M>(self.map_error)
    }

    /// The wrapped validator.
    pub closed spec fn spec_validator(self) -> V {
        self.validator
    }

    /// The mapper from domain errors to violation drafts.
    pub closed spec fn spec_map_error(self) -> M {
        self.map_error
    }

    /// Creates an adapter from a validator and its domain error mapper.
    pub fn new(validator: V, map_error: M) -> (r: Self)
        requires
            mapper_total::<E, M>(map_error),
        ensures
            r.spec_validator() == validator,
            r.spec_map_error() == map_error,
    {
        ContextualTextValidatorAdapter { validator, map_error, marker: std::marker::PhantomData }
    }
}

impl<E, V, M> PreparedValidator for ContextualTextValidatorAdapter<E, V, M>
where
    E: Send + Sync,
    V: for<'a> Validator<str, BoundValidationContext<'a>, Error = E> + Send + Sync,
    M: Fn(E) -> ViolationDraft + Send + Sync,
{
    /// A non-text value gives the type mismatch; text gives the outcome that
    /// follows the validator's decision in the same context.
    open spec fn spec_validates(&self, value: ValidationValue, context: BoundValidationContext, result: Result<PreparedOutcome, ExecutionError>) -> bool {
        &&& !(value is Text) ==> is_type_mismatch(result)
        &&& value matches ValidationValue::Text(text) ==> (result matches Ok(outcome)
            && reports_verdict(self.spec_validator(), text, &context, self.spec_map_error(), outcome))
    }

    /// Validates checked text with its dependency context.
    fn validate(
        &self,
        value: ValidationValue<'_>,
        context: &BoundValidationContext<'_>,
    ) -> (r: Result<PreparedOutcome, ExecutionError>)
        ensures
            !(value is Text) ==> (r matches Err(e) && e@ == ExecutionError::bare(ExecutionErrorKind::InputTypeMismatch)),
            value is Text ==> (r matches Ok(outcome) && valid_or_one_draft(outcome)),
            value matches ValidationValue::Text(text) ==> (r matches Ok(outcome)
                && reports_verdict(self.spec_validator(), text, context, self.spec_map_error(), outcome)),
    {
        let text = match value.as_text() {
            Some(text) => text,
            None => return Err(ExecutionError::new(ExecutionErrorKind::InputTypeMismatch)),
        };
        let result = match self.validator.validate(text, context) {
            Ok(()) => Ok(PreparedOutcome::valid()),
            Err(error) => {
                proof {
                    use_type_invariant(self);
                }
                let ghost reported = error;
                let draft = (self.map_error)(error);
                let drafts = vec![draft];
                assert(drafts@[0] == draft);
                assert(self.spec_validator().rejects(text, context, reported)
                    && call_ensures(self.spec_map_error(), (reported,), drafts@[0]));
                Ok(PreparedOutcome::Invalid(drafts))
            },
        };
        proof {
            let outcome = result->Ok_0;
            assert(reports_verdict(self.spec_validator(), text, context, self.spec_map_error(), outcome));
        }
        result
    }
}

} // verus!

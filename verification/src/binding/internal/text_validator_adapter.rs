//! Adapter for text validators with unit context.

use vstd::prelude::*;

use super::is_type_mismatch;

use super::super::BoundValidationContext;
use super::super::ExecutionError;
use super::super::ExecutionErrorKind;
use super::super::PreparedOutcome;
use super::super::PreparedValidator;
use super::super::ValidationValue;
use super::super::valid_or_one_draft;
use crate::Validator;
use crate::ViolationDraft;

verus! {

/// `map_error` can be called with every domain error.
pub open spec fn mapper_total<E, M: Fn(E) -> ViolationDraft>(map_error: M) -> bool {
    forall|error: E| call_requires(map_error, (error,))
}

/// `outcome` follows `validator`'s decision on `value` in `context`: `Valid`
/// when it accepts the value, otherwise `Invalid` holding one draft that
/// `map_error` returned for an error the validator can report for the value.
pub open spec fn reports_verdict<T: ?Sized, C: ?Sized, V: Validator<T, C>, M: Fn(V::Error) -> ViolationDraft>(
    validator: V,
    value: &T,
    context: &C,
    map_error: M,
    outcome: PreparedOutcome,
) -> bool {
    if validator.accepts(value, context) {
        outcome is Valid
    } else {
        outcome matches PreparedOutcome::Invalid(drafts) && drafts@.len() == 1
            && exists|error: V::Error| validator.rejects(value, context, error) && call_ensures(map_error, (error,), drafts@[0])
    }
}

/// Owns a text validator and the mapper for its domain errors.
pub struct TextValidatorAdapter<V: Validator<str, ()>, M: Fn(V::Error) -> ViolationDraft> {
    /// Typed validator invoked after the erased input is checked.
    validator: V,
    /// Mapper that creates a safe violation draft from the domain error.
    map_error: M,
}

impl<V: Validator<str, ()>, M: Fn(V::Error) -> ViolationDraft> TextValidatorAdapter<V, M> {
    #[verifier::type_invariant]
    spec fn mapper_callable(self) -> bool {
        mapper_total::<V::Error, M>(self.map_error)
    }

    /// The wrapped validator.
    pub closed spec fn spec_validator(self) -> V {
        self.validator
    }

    /// The mapper from domain errors to violation drafts.
    pub closed spec fn spec_map_error(self) -> M {
        self.map_error
    }

    /// Creates an adapter from a validator and its domain error mapper.
    pub fn new(validator: V, map_error: M) -> (r: Self)
        requires
            mapper_total::<V::Error, M>(map_error),
        ensures
            r.spec_validator() == validator,
            r.spec_map_error() == map_error,
    {
        TextValidatorAdapter { validator, map_error }
    }
}

impl<V, M> PreparedValidator for TextValidatorAdapter<V, M>
where
    V: Validator<str, ()> + Send + Sync,
    M: Fn(V::Error) -> ViolationDraft + Send + Sync,
{
    /// A non-text value gives the type mismatch; text gives the outcome that
    /// follows the validator's decision.
    open spec fn spec_validates(&self, value: ValidationValue, context: BoundValidationContext, result: Result<PreparedOutcome, ExecutionError>) -> bool {
        &&& !(value is Text) ==> is_type_mismatch(result)
        &&& value matches ValidationValue::Text(text) ==> (result matches Ok(outcome)
            && reports_verdict(self.spec_validator(), text, &(), self.spec_map_error(), outcome))
    }

    /// Validates a checked text value and maps a domain error into a draft.
    fn validate(
        &self,
        value: ValidationValue<'_>,
        context: &BoundValidationContext<'_>,
    ) -> (r: Result<PreparedOutcome, ExecutionError>)
        ensures
            !(value is Text) ==> (r matches Err(e) && e@ == ExecutionError::bare(ExecutionErrorKind::InputTypeMismatch)),
            value is Text ==> (r matches Ok(outcome) && valid_or_one_draft(outcome)),
            value matches ValidationValue::Text(text) ==> (r matches Ok(outcome)
                && reports_verdict(self.spec_validator(), text, &(), self.spec_map_error(), outcome)),
    {
        let text = match value.as_text() {
            Some(text) => text,
            None => return Err(ExecutionError::new(ExecutionErrorKind::InputTypeMismatch)),
        };
        let result = match self.validator.validate(text, &()) {
            Ok(()) => Ok(PreparedOutcome::valid()),
            Err(error) => {
                proof {
                    use_type_invariant(self);
                }
                let ghost reported = error;
                let draft = (self.map_error)(error);
                let drafts = vec![draft];
                assert(drafts@[0] == draft);
                assert(self.spec_validator().rejects(text, &(), reported)
                    && call_ensures(self.spec_map_error(), (reported,), drafts@[0]));
                Ok(PreparedOutcome::Invalid(drafts))
            },
        };
        proof {
            let outcome = result->Ok_0;
            assert(reports_verdict(self.spec_validator(), text, &(), self.spec_map_error(), outcome));
        }
        result
    }
}

} // verus!

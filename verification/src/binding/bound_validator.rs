//! Configured validator occurrences.

use std::sync::Arc;

use vstd::prelude::*;
use vstd::string::StringExecFns;

use super::first_failing_slot;
use super::is_bound_outcome;
use super::prepared_protocol_error;
use super::shape_accepts;
use super::slot_failure;
use super::BoundValidationContext;
use super::DependencySpec;
use super::BindError;
use super::ExecutionError;
use super::ExecutionErrorKind;
use super::InputType;
use super::PreparedOutcome;
use super::PreparedValidator;
use super::ValidationOutcome;
use super::ValidationValue;
use crate::report::SegmentView;
use crate::ValidatorId;
use crate::validator_id::id_debug_text;
use crate::validator_id::push_id;
use crate::ValidatorSignature;

verus! {

/// A bound occurrence that owns a reusable prepared validator instance.
///
/// A prepared validator reports whether its execution was valid or invalid;
/// the bound occurrence checks the input shape and the dependency slots
/// before it runs, and attaches its rule identity to the result.
pub struct BoundValidator {
    /// Immutable prepared implementation shared by cloned bound occurrences.
    prepared: Arc<Box<dyn PreparedValidator>>,
    /// Erased input shape accepted by the prepared implementation.
    input: InputType,
    /// Ordered dependency slots required by the prepared implementation.
    dependencies: &'static [DependencySpec],
    /// Stable identifier attached to outcomes and errors.
    rule_id: ValidatorId,
}

/// `result` is what a bound validator with identity `rule_id` reports for
/// what its prepared validator returned: an execution error gains the rule
/// identity, an outcome that breaks the outcome protocol becomes an adapter
/// contract error of the rule, and any other outcome gains the rule identity.
pub open spec fn completes(rule_id: ValidatorId, prepared: Result<PreparedOutcome, ExecutionError>, result: Result<ValidationOutcome, ExecutionError>) -> bool {
    match prepared {
        Err(error) => result matches Err(e) && e@ == (error@.0, error@.1, Some(rule_id), error@.3),
        Ok(outcome) => match prepared_protocol_error(outcome) {
            Some(_) => result matches Err(e)
                && e@ == (ExecutionErrorKind::AdapterContractViolation, Seq::<SegmentView>::empty(), Some(rule_id), None::<Seq<char>>),
            None => result matches Ok(bound) && is_bound_outcome(outcome, rule_id, bound),
        },
    }
}

/// The description of a bound occurrence with rule `rule_id` whose input
/// shape is described by `input`.
pub open spec fn bound_validator_text(rule_id: ValidatorId, input: Seq<char>) -> Seq<char> {
    "BoundValidator { rule_id: "@ + id_debug_text(rule_id) + ", input: "@ + input + ", .. }"@
}

impl BoundValidator {
    /// Whether `result` is what the prepared validator this occurrence runs
    /// can give for `value` in `context`.
    pub closed spec fn spec_runs(self, value: ValidationValue, context: BoundValidationContext, result: Result<PreparedOutcome, ExecutionError>) -> bool {
        (**self.prepared).spec_validates(value, context, result)
    }

    /// The accepted input shape.
    pub closed spec fn spec_input(self) -> InputType {
        self.input
    }

    /// The dependency slots in execution order.
    pub closed spec fn spec_dependencies(self) -> &'static [DependencySpec] {
        self.dependencies
    }

    /// The rule identity attached to outcomes and errors.
    pub closed spec fn spec_rule_id(self) -> ValidatorId {
        self.rule_id
    }

    /// Binds what a preparation of `signature` returned under `rule_id`: a
    /// prepared validator becomes the occurrence that runs it, and an error is
    /// returned unchanged.
    pub(crate) fn from_preparation(prepared: Result<Box<dyn PreparedValidator>, BindError>, signature: ValidatorSignature, rule_id: ValidatorId) -> (r: Result<Self, BindError>)
        ensures
            match prepared {
                Ok(validator) => r matches Ok(bound)
                    && bound.spec_input() == signature.spec_input()
                    && bound.spec_dependencies() == signature.spec_dependencies()
                    && bound.spec_rule_id() == rule_id
                    && forall|value: ValidationValue, context: BoundValidationContext, result: Result<PreparedOutcome, ExecutionError>|
                        #[trigger] bound.spec_runs(value, context, result) == (*validator).spec_validates(value, context, result),
                Err(error) => r matches Err(e) && e == error,
            },
    {
        match prepared {
            Ok(validator) => {
                let ghost boxed = validator;
                let shared = Arc::new(validator);
                assert(*shared == boxed);
                let bound = BoundValidator { prepared: shared, input: signature.input(), dependencies: signature.dependencies(), rule_id };
                assert(*bound.prepared == boxed);
                assert forall|value: ValidationValue, context: BoundValidationContext, result: Result<PreparedOutcome, ExecutionError>|
                    #[trigger] bound.spec_runs(value, context, result) == (*boxed).spec_validates(value, context, result) by {}
                Ok(bound)
            },
            Err(error) => Err(error),
        }
    }

    /// Creates a zero-dependency binding for an already prepared typed rule.
    ///
    /// The binding checks that calls supply exactly `T` and no dependency
    /// slots before invoking the prepared validator. It does not perform
    /// registry lookup or parameter decoding.
    pub fn from_prepared<T: 'static>(rule_id: ValidatorId, prepared: Box<dyn PreparedValidator>) -> (r: Self)
        ensures
            r.spec_input() is Typed,
            r.spec_dependencies()@.len() == 0,
            r.spec_rule_id() == rule_id,
            forall|value: ValidationValue, context: BoundValidationContext, result: Result<PreparedOutcome, ExecutionError>|
                #[trigger] r.spec_runs(value, context, result) == (*prepared).spec_validates(value, context, result),
    {
        let ghost boxed = prepared;
        let shared = Arc::new(prepared);
        assert(*shared == boxed);
        let r = BoundValidator { prepared: shared, input: InputType::of::<T>(), dependencies: &[], rule_id };
        assert(*r.prepared == boxed);
        assert forall|value: ValidationValue, context: BoundValidationContext, result: Result<PreparedOutcome, ExecutionError>|
            #[trigger] r.spec_runs(value, context, result) == (*boxed).spec_validates(value, context, result) by {}
        r
    }

    /// Validates one value after checking its erased input and dependencies.
    ///
    /// # Errors
    ///
    /// Returns an input shape error for a missing or differently shaped value,
    /// the first dependency slot error, or what the prepared validator
    /// reports; every error carries the rule identity.
    pub fn validate(&self, value: ValidationValue<'_>, context: &BoundValidationContext<'_>) -> (r: Result<ValidationOutcome, ExecutionError>)
        ensures
            (value is Missing || !shape_accepts(self.spec_input(), value)) ==> (r matches Err(e)
                && e@ == (ExecutionErrorKind::InputTypeMismatch, Seq::<SegmentView>::empty(), Some(self.spec_rule_id()), None::<Seq<char>>)),
            !(value is Missing || !shape_accepts(self.spec_input(), value)) && context.spec_values().len() != self.spec_dependencies()@.len()
                ==> (r matches Err(e) && e@ == (ExecutionErrorKind::AdapterContractViolation, Seq::<SegmentView>::empty(), Some(self.spec_rule_id()), None::<Seq<char>>)),
            !(value is Missing || !shape_accepts(self.spec_input(), value)) && context.spec_values().len() == self.spec_dependencies()@.len()
                ==> match first_failing_slot(context.spec_values(), self.spec_dependencies()@, self.spec_dependencies()@.len() as int) {
                    Some(i) => r matches Err(e) && e@ == (
                        slot_failure(context.spec_values()[i], self.spec_dependencies()@[i])->0,
                        context.slot_path(i),
                        Some(self.spec_rule_id()),
                        Some(self.spec_dependencies()@[i].spec_name()@),
                    ),
                    None => exists|prepared: Result<PreparedOutcome, ExecutionError>|
                        self.spec_runs(value, *context, prepared) && completes(self.spec_rule_id(), prepared, r),
                },
            r matches Err(e) ==> e@.2 == Some(self.spec_rule_id()),
    {
        if value.is_missing() || !self.input.accepts(value) {
            return Err(ExecutionError::new(ExecutionErrorKind::InputTypeMismatch).with_rule(self.rule_id));
        }
        if let Err(error) = context.check_specs(self.dependencies) {
            return Err(error.with_rule(self.rule_id));
        }
        let prepared = (**self.prepared).validate(value, context);
        let ghost prepared_result = prepared;
        let result = self.complete(prepared);
        assert(self.spec_runs(value, *context, prepared_result));
        assert(completes(self.rule_id, prepared_result, result));
        result
    }

    /// Attaches this occurrence's rule identity to what its prepared
    /// validator returned.
    ///
    /// # Errors
    ///
    /// Returns the prepared execution error with the rule identity, or an
    /// adapter contract error when the prepared outcome breaks the outcome
    /// protocol.
    pub fn complete(&self, prepared: Result<PreparedOutcome, ExecutionError>) -> (r: Result<ValidationOutcome, ExecutionError>)
        ensures
            completes(self.spec_rule_id(), prepared, r),
    {
        let outcome = match prepared {
            Ok(outcome) => outcome,
            Err(error) => return Err(error.with_rule(self.rule_id)),
        };
        match outcome.into_bound(self.rule_id) {
            Ok(bound) => Ok(bound),
            Err(_) => Err(ExecutionError::new(ExecutionErrorKind::AdapterContractViolation).with_rule(self.rule_id)),
        }
    }

    /// Describes the occurrence by its rule identity and input shape.
    pub fn redacted(&self) -> (r: String)
        ensures
            exists|input: Seq<char>| r@ == bound_validator_text(self.spec_rule_id(), input)
                && (self.spec_input() is Text ==> input == "Text"@),
    {
        let mut text = String::from_str("BoundValidator { rule_id: ");
        push_id(&mut text, self.rule_id);
        text.append(", input: ");
        let input = self.input.to_debug_string();
        let ghost input_text = input@;
        text.append(input.as_str());
        text.append(", .. }");
        assert(text@ == bound_validator_text(self.spec_rule_id(), input_text));
        assert(self.spec_input() is Text ==> input_text == "Text"@);
        text
    }

    /// Returns the selected input shape.
    pub fn input_type(&self) -> (r: InputType)
        ensures
            r == self.spec_input(),
    {
        self.input
    }

    /// Returns dependencies in their execution slot order.
    pub fn dependency_specs(&self) -> (r: &'static [DependencySpec])
        ensures
            r == self.spec_dependencies(),
    {
        self.dependencies
    }

    /// Returns the stable rule identifier.
    pub fn rule_id(&self) -> (r: ValidatorId)
        ensures
            r == self.spec_rule_id(),
    {
        self.rule_id
    }
}

impl Clone for BoundValidator {
    /// Shares the prepared implementation with the new occurrence.
    fn clone(&self) -> (r: Self)
        ensures
            r.spec_input() == self.spec_input(),
            r.spec_dependencies() == self.spec_dependencies(),
            r.spec_rule_id() == self.spec_rule_id(),
            forall|value: ValidationValue, context: BoundValidationContext, result: Result<PreparedOutcome, ExecutionError>|
                #[trigger] r.spec_runs(value, context, result) == self.spec_runs(value, context, result),
    {
        BoundValidator {
            prepared: Arc::clone(&self.prepared),
            input: self.input,
            dependencies: self.dependencies,
            rule_id: self.rule_id,
        }
    }
}

} // verus!

//! Adapters for contextual validator closures.

use vstd::prelude::*;

use super::super::BoundValidationContext;
use super::super::ExecutionError;
use super::super::ExecutionErrorKind;
use super::super::PreparedOutcome;
use super::super::PreparedValidator;
use super::super::ValidationValue;

verus! {

/// `call` can be called with every text and dependency context.
pub open spec fn text_call_total<F: Fn(&str, &BoundValidationContext<'_>) -> Result<PreparedOutcome, ExecutionError>>(call: F) -> bool {
    forall|text: &str, context: &BoundValidationContext| call_requires(call, (text, context))
}

/// `call` can be called with every typed value and dependency context.
pub open spec fn typed_call_total<T, F: Fn(&T, &BoundValidationContext<'_>) -> Result<PreparedOutcome, ExecutionError>>(call: F) -> bool {
    forall|value: &T, context: &BoundValidationContext| call_requires(call, (value, context))
}

/// `result` is the input type mismatch error.
pub open spec fn is_type_mismatch(result: Result<PreparedOutcome, ExecutionError>) -> bool {
    result matches Err(e) && e@ == ExecutionError::bare(ExecutionErrorKind::InputTypeMismatch)
}

/// Runs a text validation closure after checking the erased target shape.
pub struct TextContextFnAdapter<F: Fn(&str, &BoundValidationContext<'_>) -> Result<PreparedOutcome, ExecutionError>> {
    /// Validation operation.
    call: F,
}

impl<F: Fn(&str, &BoundValidationContext<'_>) -> Result<PreparedOutcome, ExecutionError>> TextContextFnAdapter<F> {
    #[verifier::type_invariant]
    spec fn callable(self) -> bool {
        text_call_total(self.call)
    }

    /// The wrapped validation function.
    pub closed spec fn spec_call(self) -> F {
        self.call
    }

    /// Creates an adapter around one validation operation.
    pub fn new(call: F) -> (r: Self)
        requires
            text_call_total(call),
        ensures
            r.spec_call() == call,
    {
        TextContextFnAdapter { call }
    }
}

impl<F> PreparedValidator for TextContextFnAdapter<F>
where
    F: Fn(&str, &BoundValidationContext<'_>) -> Result<PreparedOutcome, ExecutionError> + Send + Sync,
{
    /// A non-text value gives the type mismatch; text gives what the closure
    /// returns for it and the context.
    open spec fn spec_validates(&self, value: ValidationValue, context: BoundValidationContext, result: Result<PreparedOutcome, ExecutionError>) -> bool {
        &&& !(value is Text) ==> is_type_mismatch(result)
        &&& value matches ValidationValue::Text(text) ==> call_ensures(self.spec_call(), (text, &context), result)
    }

    /// Executes the closure with a checked text target.
    fn validate(
        &self,
        value: ValidationValue<'_>,
        context: &BoundValidationContext<'_>,
    ) -> (r: Result<PreparedOutcome, ExecutionError>)
        ensures
            !(value is Text) ==> (r matches Err(e) && e@ == ExecutionError::bare(ExecutionErrorKind::InputTypeMismatch)),
            value matches ValidationValue::Text(text) ==> call_ensures(self.spec_call(), (text, context), r),
    {
        let text = match value.as_text() {
            Some(text) => text,
            None => return Err(ExecutionError::new(ExecutionErrorKind::InputTypeMismatch)),
        };
        proof {
            use_type_invariant(self);
        }
        (self.call)(text, context)
    }
}

/// Runs a typed validation closure after checking the erased target type.
#[verifier::reject_recursive_types(T)]
pub struct TypedContextFnAdapter<T: 'static, F: Fn(&T, &BoundValidationContext<'_>) -> Result<PreparedOutcome, ExecutionError>> {
    /// Validation operation.
    call: F,
    /// Marks the concrete input type without owning an input value.
    input: std::marker::PhantomData<T>,
}

impl<T: 'static, F: Fn(&T, &BoundValidationContext<'_>) -> Result<PreparedOutcome, ExecutionError>> TypedContextFnAdapter<T, F> {
    #[verifier::type_invariant]
    spec fn callable(self) -> bool {
        typed_call_total(self.call)
    }

    /// The wrapped validation function.
    pub closed spec fn spec_call(self) -> F {
        self.call
    }

    /// Creates an adapter around one validation operation.
    pub fn new(call: F) -> (r: Self)
        requires
            typed_call_total(call),
        ensures
            r.spec_call() == call,
    {
        TypedContextFnAdapter { call, input: std::marker::PhantomData }
    }
}

impl<T, F> PreparedValidator for TypedContextFnAdapter<T, F>
where
    T: 'static + Send + Sync,
    F: Fn(&T, &BoundValidationContext<'_>) -> Result<PreparedOutcome, ExecutionError> + Send + Sync,
{
    /// A value that is not typed gives the type mismatch; a typed value gives
    /// the type mismatch or what the closure returns for some value of type
    /// `T` and the context.
    open spec fn spec_validates(&self, value: ValidationValue, context: BoundValidationContext, result: Result<PreparedOutcome, ExecutionError>) -> bool {
        &&& !(value is Typed) ==> is_type_mismatch(result)
        &&& value is Typed ==> is_type_mismatch(result) || exists|typed: &T| call_ensures(self.spec_call(), (typed, &context), result)
    }

    /// Executes the closure with a checked typed target.
    fn validate(
        &self,
        value: ValidationValue<'_>,
        context: &BoundValidationContext<'_>,
    ) -> (r: Result<PreparedOutcome, ExecutionError>)
        ensures
            !(value is Typed) ==> (r matches Err(e) && e@ == ExecutionError::bare(ExecutionErrorKind::InputTypeMismatch)),
            value is Typed ==> is_type_mismatch(r) || exists|typed: &T| call_ensures(self.spec_call(), (typed, context), r),
    {
        let typed = match value.typed::<T>() {
            Some(typed) => typed,
            None => return Err(ExecutionError::new(ExecutionErrorKind::InputTypeMismatch)),
        };
        proof {
            use_type_invariant(self);
        }
        let result = (self.call)(typed, context);
        assert(call_ensures(self.spec_call(), (typed, context), result));
        result
    }
}

} // verus!

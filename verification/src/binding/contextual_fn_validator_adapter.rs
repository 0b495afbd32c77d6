//! Adapters for text and typed validation closures with dependency context.

use vstd::prelude::*;

use super::text_call_total;
use super::typed_call_total;
use super::BoundValidationContext;
use super::ExecutionError;
use super::PreparedOutcome;
use super::TextContextFnAdapter;
use super::TypedContextFnAdapter;

verus! {

/// Prepares a text validation closure that receives its checked dependency
/// context.
///
/// The closure can report a valid input, one or more violation drafts, or an
/// execution failure. Callers must keep raw rejected input out of violation
/// drafts and execution errors.
pub fn prepare_text_with_context<F>(call: F) -> (r: TextContextFnAdapter<F>)
where
    F: Fn(&str, &BoundValidationContext<'_>) -> Result<PreparedOutcome, ExecutionError> + Send + Sync + 'static,
    requires
        text_call_total(call),
    ensures
        r.spec_call() == call,
{
    TextContextFnAdapter::new(call)
}

/// Prepares a typed validation closure that receives its checked dependency
/// context.
///
/// The returned adapter checks the target has type `T` before invoking `call`.
pub fn prepare_typed_with_context<T, F>(call: F) -> (r: TypedContextFnAdapter<T, F>)
where
    T: 'static + Send + Sync,
    F: Fn(&T, &BoundValidationContext<'_>) -> Result<PreparedOutcome, ExecutionError> + Send + Sync + 'static,
    requires
        typed_call_total(call),
    ensures
        r.spec_call() == call,
{
    TypedContextFnAdapter::new(call)
}

} // verus!

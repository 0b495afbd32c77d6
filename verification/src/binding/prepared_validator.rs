//! Type-erased prepared validator instances.

use vstd::prelude::*;

use super::BindError;
use super::BoundValidationContext;
use super::ExecutionError;
use super::PreparedOutcome;
use super::ValidationValue;
use crate::NamedValidationArgument;

verus! {

/// A configured, immutable validator instance safe to share between calls.
pub trait PreparedValidator: Send + Sync {
    /// Whether `result` is an outcome that validating `value` in `context`
    /// can give.
    spec fn spec_validates(&self, value: ValidationValue, context: BoundValidationContext, result: Result<PreparedOutcome, ExecutionError>) -> bool;

    /// Validates one erased input with its ordered dependency context.
    ///
    /// # Errors
    ///
    /// Returns an execution error when the input or context cannot be
    /// processed.
    fn validate(
        &self,
        value: ValidationValue<'_>,
        context: &BoundValidationContext<'_>,
    ) -> (r: Result<PreparedOutcome, ExecutionError>)
        ensures
            self.spec_validates(value, *context, r);
}

/// Constructs an owned prepared validator from declaration parameters.
///
/// A preparation returns a binding error when parameters are missing, unknown,
/// duplicated, or cannot be decoded by the validator implementation.
pub trait PrepareFn: Send + Sync {
    /// Whether `result` is what preparing with `params` can give.
    spec fn spec_prepares(&self, params: &[NamedValidationArgument], result: Result<Box<dyn PreparedValidator>, BindError>) -> bool;

    /// Decodes the parameters and creates the prepared validator.
    ///
    /// # Errors
    ///
    /// Returns a binding error for unusable parameters.
    fn prepare(&self, params: &[NamedValidationArgument<'_>]) -> (r: Result<Box<dyn PreparedValidator>, BindError>)
        ensures
            self.spec_prepares(params, r);
}

} // verus!

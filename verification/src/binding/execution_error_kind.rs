//! Execution error kinds.

use vstd::prelude::*;
use vstd::string::StringExecFns;

verus! {

/// A failure in the validation execution infrastructure.
#[derive(Clone, Copy, Debug, PartialEq, Eq, Structural)]
#[non_exhaustive]
pub enum ExecutionErrorKind {
    /// The supplied input has the wrong erased type.
    InputTypeMismatch,
    /// A dependency has the wrong erased type.
    DependencyTypeMismatch,
    /// A required dependency value is absent.
    MissingRequiredDependencyValue,
    /// A property could not be read.
    PropertyReadFailed,
    /// Traversal exceeded an execution budget.
    TraversalLimit,
    /// A prepared adapter returned an invalid protocol result.
    AdapterContractViolation,
    /// An external operation failed.
    ExternalFailure,
}

impl ExecutionErrorKind {
    /// The stable human-readable category.
    pub open spec fn spec_text(self) -> Seq<char> {
        match self {
            ExecutionErrorKind::InputTypeMismatch => "input type mismatch"@,
            ExecutionErrorKind::DependencyTypeMismatch => "dependency type mismatch"@,
            ExecutionErrorKind::MissingRequiredDependencyValue => "missing required dependency value"@,
            ExecutionErrorKind::PropertyReadFailed => "property read failed"@,
            ExecutionErrorKind::TraversalLimit => "traversal limit exceeded"@,
            ExecutionErrorKind::AdapterContractViolation => "adapter contract violation"@,
            ExecutionErrorKind::ExternalFailure => "external failure"@,
        }
    }

    /// Returns the stable human-readable category.
    pub fn as_str(&self) -> (r: &'static str)
        ensures
            r@ == self.spec_text(),
    {
        match self {
            ExecutionErrorKind::InputTypeMismatch => "input type mismatch",
            ExecutionErrorKind::DependencyTypeMismatch => "dependency type mismatch",
            ExecutionErrorKind::MissingRequiredDependencyValue => "missing required dependency value",
            ExecutionErrorKind::PropertyReadFailed => "property read failed",
            ExecutionErrorKind::TraversalLimit => "traversal limit exceeded",
            ExecutionErrorKind::AdapterContractViolation => "adapter contract violation",
            ExecutionErrorKind::ExternalFailure => "external failure",
        }
    }

    /// Formats the stable human-readable category.
    pub fn to_string(&self) -> (r: String)
        ensures
            r@ == self.spec_text(),
    {
        String::from_str(self.as_str())
    }

    /// The variant's name, as `Debug` writes it.
    pub open spec fn spec_variant_name(self) -> Seq<char> {
        match self {
            ExecutionErrorKind::InputTypeMismatch => "InputTypeMismatch"@,
            ExecutionErrorKind::DependencyTypeMismatch => "DependencyTypeMismatch"@,
            ExecutionErrorKind::MissingRequiredDependencyValue => "MissingRequiredDependencyValue"@,
            ExecutionErrorKind::PropertyReadFailed => "PropertyReadFailed"@,
            ExecutionErrorKind::TraversalLimit => "TraversalLimit"@,
            ExecutionErrorKind::AdapterContractViolation => "AdapterContractViolation"@,
            ExecutionErrorKind::ExternalFailure => "ExternalFailure"@,
        }
    }

    /// Returns the variant's name.
    pub fn variant_name(&self) -> (r: &'static str)
        ensures
            r@ == self.spec_variant_name(),
    {
        match self {
            ExecutionErrorKind::InputTypeMismatch => "InputTypeMismatch",
            ExecutionErrorKind::DependencyTypeMismatch => "DependencyTypeMismatch",
            ExecutionErrorKind::MissingRequiredDependencyValue => "MissingRequiredDependencyValue",
            ExecutionErrorKind::PropertyReadFailed => "PropertyReadFailed",
            ExecutionErrorKind::TraversalLimit => "TraversalLimit",
            ExecutionErrorKind::AdapterContractViolation => "AdapterContractViolation",
            ExecutionErrorKind::ExternalFailure => "ExternalFailure",
        }
    }
}

} // verus!

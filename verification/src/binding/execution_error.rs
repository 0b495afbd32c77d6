//! Structured validation execution failures.

use vstd::prelude::*;
use vstd::string::StringExecFns;

use super::ExecutionErrorKind;
use crate::report::SegmentView;
use crate::ValidationPath;
use crate::validator_id::bool_str;
use crate::validator_id::bool_text;
use crate::validator_id::optional_id_text;
use crate::validator_id::push_optional_id;
use crate::ValidatorId;

verus! {

/// An execution error with a safe public diagnostic surface.
///
/// Its metadata never includes raw validation input, and it stores no
/// underlying source.
pub struct ExecutionError {
    /// Stable category describing the execution failure.
    kind: ExecutionErrorKind,
    /// Structured location of the failure, without rendered raw keys.
    path: ValidationPath,
    /// Optional rule identifier associated with the failure.
    rule_id: Option<ValidatorId>,
    /// Optional dependency name associated with the failure.
    dependency: Option<&'static str>,
}

/// The text of an optional static string.
pub open spec fn optional_str(text: Option<&'static str>) -> Option<Seq<char>> {
    match text {
        Some(text) => Some(text@),
        None => None,
    }
}

impl View for ExecutionError {
    /// Kind, path, rule and dependency name.
    type V = (ExecutionErrorKind, Seq<SegmentView>, Option<ValidatorId>, Option<Seq<char>>);

    closed spec fn view(&self) -> Self::V {
        (self.kind, self.path@, self.rule_id, optional_str(self.dependency))
    }
}

impl ExecutionError {
    /// The view of an error of `kind` at the root path, with no rule and no
    /// dependency.
    pub open spec fn bare(kind: ExecutionErrorKind) -> (ExecutionErrorKind, Seq<SegmentView>, Option<ValidatorId>, Option<Seq<char>>) {
        (kind, Seq::empty(), None, None)
    }

    /// Creates an execution error at the root path.
    pub fn new(kind: ExecutionErrorKind) -> (r: Self)
        ensures
            r@ == (kind, Seq::<SegmentView>::empty(), None::<ValidatorId>, None::<Seq<char>>),
    {
        ExecutionError { kind, path: ValidationPath::root(), rule_id: None, dependency: None }
    }

    /// Associates a rule identifier with this error.
    pub fn with_rule(self, rule_id: ValidatorId) -> (r: Self)
        ensures
            r@ == (self@.0, self@.1, Some(rule_id), self@.3),
    {
        ExecutionError { kind: self.kind, path: self.path, rule_id: Some(rule_id), dependency: self.dependency }
    }

    /// Associates a dependency slot name with this error.
    pub fn with_dependency(self, dependency: &'static str) -> (r: Self)
        ensures
            r@ == (self@.0, self@.1, self@.2, Some(dependency@)),
    {
        ExecutionError { kind: self.kind, path: self.path, rule_id: self.rule_id, dependency: Some(dependency) }
    }

    /// Associates a structured path with this error.
    pub fn with_path(self, path: ValidationPath) -> (r: Self)
        ensures
            r@ == (self@.0, path@, self@.2, self@.3),
    {
        ExecutionError { kind: self.kind, path, rule_id: self.rule_id, dependency: self.dependency }
    }

    /// Returns the error kind.
    pub fn kind(&self) -> (r: ExecutionErrorKind)
        ensures
            r == self@.0,
    {
        self.kind
    }

    /// Returns the associated rule identifier, if any.
    pub fn rule_id(&self) -> (r: Option<ValidatorId>)
        ensures
            r == self@.2,
    {
        self.rule_id
    }

    /// Returns the associated dependency slot name, if the error concerns one.
    pub fn dependency(&self) -> (r: Option<&'static str>)
        ensures
            optional_str(r) == self@.3,
    {
        self.dependency
    }

    /// Returns the structured error path.
    pub fn path(&self) -> (r: &ValidationPath)
        ensures
            r@ == self@.1,
    {
        &self.path
    }

    /// Formats a stable summary without exposing raw input or source text.
    pub fn to_string(&self) -> (r: String)
        ensures
            r@ == "validation execution failed: "@ + self@.0.spec_text(),
    {
        let message = String::from_str("validation execution failed: ");
        message.concat(self.kind.as_str())
    }

    /// Describes the error by its kind, rule and whether it names a
    /// dependency, without any raw input.
    pub fn redacted(&self) -> (r: String)
        ensures
            r@ == "ExecutionError { kind: "@ + self@.0.spec_variant_name() + ", rule_id: "@ + optional_id_text(self@.2)
                + ", has_dependency: "@ + bool_text(self@.3 is Some) + ", .. }"@,
    {
        let mut text = String::from_str("ExecutionError { kind: ");
        text.append(self.kind.variant_name());
        text.append(", rule_id: ");
        push_optional_id(&mut text, self.rule_id);
        text.append(", has_dependency: ");
        text.append(bool_str(self.dependency.is_some()));
        text.append(", .. }");
        text
    }
}

} // verus!

//! Structured validation binding failures.

use vstd::prelude::*;
use vstd::string::StringExecFns;

use super::BindErrorKind;
use crate::validator_id::bool_str;
use crate::validator_id::bool_text;
use crate::validator_id::optional_id_text;
use crate::validator_id::push_optional_id;
use crate::ValidatorId;

verus! {

/// A binding error that does not retain raw parameter values.
pub struct BindError {
    /// Stable category describing the failed binding operation.
    kind: BindErrorKind,
    /// Optional rule identifier associated with the failure.
    rule_id: Option<ValidatorId>,
    /// Optional parameter name; the parameter value is never retained.
    parameter: Option<String>,
    /// Optional dependency name; the dependency value is never retained.
    dependency: Option<String>,
}

/// The text of an optional owned string.
pub open spec fn optional_text(text: Option<String>) -> Option<Seq<char>> {
    match text {
        Some(text) => Some(text@),
        None => None,
    }
}

impl View for BindError {
    /// Kind, rule, parameter name and dependency name.
    type V = (BindErrorKind, Option<ValidatorId>, Option<Seq<char>>, Option<Seq<char>>);

    closed spec fn view(&self) -> Self::V {
        (self.kind, self.rule_id, optional_text(self.parameter), optional_text(self.dependency))
    }
}

impl BindError {
    /// Creates a binding error.
    pub fn new(kind: BindErrorKind) -> (r: Self)
        ensures
            r@ == (kind, None::<ValidatorId>, None::<Seq<char>>, None::<Seq<char>>),
    {
        BindError { kind, rule_id: None, parameter: None, dependency: None }
    }

    /// Associates a rule identifier with this error.
    pub fn with_rule(self, rule_id: ValidatorId) -> (r: Self)
        ensures
            r@ == (self@.0, Some(rule_id), self@.2, self@.3),
    {
        BindError { kind: self.kind, rule_id: Some(rule_id), parameter: self.parameter, dependency: self.dependency }
    }

    /// Associates a parameter name with this error.
    pub fn with_parameter(self, parameter: &str) -> (r: Self)
        ensures
            r@ == (self@.0, self@.1, Some(parameter@), self@.3),
    {
        BindError {
            kind: self.kind,
            rule_id: self.rule_id,
            parameter: Some(String::from_str(parameter)),
            dependency: self.dependency,
        }
    }

    /// Associates a dependency name with this error.
    pub fn with_dependency(self, dependency: &str) -> (r: Self)
        ensures
            r@ == (self@.0, self@.1, self@.2, Some(dependency@)),
    {
        BindError {
            kind: self.kind,
            rule_id: self.rule_id,
            parameter: self.parameter,
            dependency: Some(String::from_str(dependency)),
        }
    }

    /// Returns the error kind.
    pub fn kind(&self) -> (r: BindErrorKind)
        ensures
            r == self@.0,
    {
        self.kind
    }

    /// Returns the associated rule identifier, if any.
    pub fn rule_id(&self) -> (r: Option<ValidatorId>)
        ensures
            r == self@.1,
    {
        self.rule_id
    }

    /// Returns the associated parameter name, if any. The error never
    /// retains the corresponding raw parameter value.
    pub fn parameter(&self) -> (r: Option<&str>)
        ensures
            match r {
                Some(name) => self@.2 == Some(name@),
                None => self@.2 is None,
            },
    {
        match &self.parameter {
            Some(name) => Some(name.as_str()),
            None => None,
        }
    }

    /// Returns the associated dependency name, if any. The error never
    /// retains the corresponding raw dependency value.
    pub fn dependency(&self) -> (r: Option<&str>)
        ensures
            match r {
                Some(name) => self@.3 == Some(name@),
                None => self@.3 is None,
            },
    {
        match &self.dependency {
            Some(name) => Some(name.as_str()),
            None => None,
        }
    }

    /// Formats a stable summary without exposing raw parameter values.
    pub fn to_string(&self) -> (r: String)
        ensures
            r@ == "validation binding failed: "@ + self@.0.spec_text(),
    {
        let message = String::from_str("validation binding failed: ");
        message.concat(self.kind.as_str())
    }

    /// Describes the error by its kind, rule and whether it names a
    /// parameter or a dependency, without their names or values.
    pub fn redacted(&self) -> (r: String)
        ensures
            r@ == "BindError { kind: "@ + self@.0.spec_variant_name() + ", rule_id: "@ + optional_id_text(self@.1)
                + ", has_parameter: "@ + bool_text(self@.2 is Some) + ", has_dependency: "@ + bool_text(self@.3 is Some) + " }"@,
    {
        let mut text = String::from_str("BindError { kind: ");
        text.append(self.kind.variant_name());
        text.append(", rule_id: ");
        push_optional_id(&mut text, self.rule_id);
        text.append(", has_parameter: ");
        text.append(bool_str(self.parameter.is_some()));
        text.append(", has_dependency: ");
        text.append(bool_str(self.dependency.is_some()));
        text.append(" }");
        text
    }
}

} // verus!

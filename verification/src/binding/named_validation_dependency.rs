//! Named borrowed dependency values for direct bound-validator calls.

use vstd::prelude::*;
use vstd::string::StringExecFns;

use super::ValidationValue;
use crate::ValidationPath;

verus! {

/// One dependency value identified by its signature name.
///
/// Names come from the validator declaration. Values and paths remain borrowed
/// for the validation call and are never retained by the binding.
#[derive(Clone, Copy)]
pub struct NamedValidationDependency<'a> {
    /// Static name declared by the selected validator signature.
    name: &'static str,
    /// Borrowed value supplied for the dependency slot.
    value: ValidationValue<'a>,
    /// Optional location used in structured dependency errors.
    path: Option<&'a ValidationPath>,
}

impl<'a> NamedValidationDependency<'a> {
    /// The dependency name.
    pub closed spec fn spec_name(self) -> &'static str {
        self.name
    }

    /// The dependency value.
    pub closed spec fn spec_value(self) -> ValidationValue<'a> {
        self.value
    }

    /// The dependency path, if one was associated.
    pub closed spec fn spec_path(self) -> Option<&'a ValidationPath> {
        self.path
    }

    /// Creates a named dependency value without a specific path.
    pub fn new(name: &'static str, value: ValidationValue<'a>) -> (r: Self)
        ensures
            r.spec_name() == name,
            r.spec_value() == value,
            r.spec_path() is None,
    {
        NamedValidationDependency { name, value, path: None }
    }

    /// Associates a model path with this dependency value.
    pub fn with_path(self, path: &'a ValidationPath) -> (r: Self)
        ensures
            r.spec_name() == self.spec_name(),
            r.spec_value() == self.spec_value(),
            r.spec_path() == Some(path),
    {
        NamedValidationDependency { name: self.name, value: self.value, path: Some(path) }
    }

    /// Returns the dependency name.
    pub fn name(&self) -> (r: &'static str)
        ensures
            r == self.spec_name(),
    {
        self.name
    }

    /// Returns the dependency value.
    pub fn value(&self) -> (r: ValidationValue<'a>)
        ensures
            r == self.spec_value(),
    {
        self.value
    }

    /// Returns the dependency path, if one was associated.
    pub fn path(&self) -> (r: Option<&'a ValidationPath>)
        ensures
            r == self.spec_path(),
    {
        self.path
    }

    /// Describes the dependency by whether it has a path only, so its name
    /// and value stay private.
    pub fn redacted(&self) -> (r: String)
        ensures
            r@ == if self.spec_path() is Some {
                "NamedValidationDependency { has_path: true, .. }"@
            } else {
                "NamedValidationDependency { has_path: false, .. }"@
            },
    {
        if self.path.is_some() {
            String::from_str("NamedValidationDependency { has_path: true, .. }")
        } else {
            String::from_str("NamedValidationDependency { has_path: false, .. }")
        }
    }
}

} // verus!

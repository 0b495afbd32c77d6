//! Dependency slot declarations for prepared validators.

use vstd::prelude::*;

use super::InputType;

verus! {

/// Describes one ordered dependency slot supplied to a validator.
#[derive(Clone, Copy, Debug, PartialEq, Eq)]
pub struct DependencySpec {
    /// Logical slot name used in diagnostics.
    name: &'static str,
    /// Erased value shape required by the slot.
    input: InputType,
    /// Whether the explicit missing marker is accepted.
    optional: bool,
}

impl DependencySpec {
    /// The slot name.
    pub closed spec fn spec_name(self) -> &'static str {
        self.name
    }

    /// The required input shape.
    pub closed spec fn spec_input(self) -> InputType {
        self.input
    }

    /// Whether the explicit missing marker is accepted.
    pub closed spec fn spec_optional(self) -> bool {
        self.optional
    }

    /// Creates a dependency declaration.
    ///
    /// # Panics
    ///
    /// `name` must not be empty.
    pub fn new(name: &'static str, input: InputType, optional: bool) -> (r: Self)
        requires
            name@.len() > 0,
        ensures
            r.spec_name() == name,
            r.spec_input() == input,
            r.spec_optional() == optional,
    {
        DependencySpec { name, input, optional }
    }

    /// Returns the logical slot name.
    pub fn name(self) -> (r: &'static str)
        ensures
            r == self.spec_name(),
    {
        self.name
    }

    /// Returns the required input shape.
    pub fn input(self) -> (r: InputType)
        ensures
            r == self.spec_input(),
    {
        self.input
    }

    /// Returns whether an explicit missing value is accepted.
    pub fn optional(self) -> (r: bool)
        ensures
            r == self.spec_optional(),
    {
        self.optional
    }
}

} // verus!

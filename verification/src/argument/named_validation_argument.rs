//! Named validator parameter values.

use vstd::prelude::*;
use vstd::string::StringExecFns;

use super::same_shape;
use super::ValidationArgument;

verus! {

/// One named validator parameter borrowing its name and value.
#[derive(Clone, Copy, PartialEq, Eq)]
pub struct NamedValidationArgument<'a> {
    /// Name used by a validator's parameter schema.
    name: &'a str,
    /// Typed value supplied for the named parameter.
    value: ValidationArgument<'a>,
}

impl<'a> NamedValidationArgument<'a> {
    /// The parameter name.
    pub closed spec fn spec_name(self) -> &'a str {
        self.name
    }

    /// The parameter value.
    pub closed spec fn spec_value(self) -> ValidationArgument<'a> {
        self.value
    }

    /// Creates a named parameter.
    ///
    /// # Panics
    ///
    /// `name` must not be empty.
    pub fn new(name: &'a str, value: ValidationArgument<'a>) -> (r: Self)
        requires
            name@.len() > 0,
        ensures
            r.spec_name() == name,
            r.spec_value() == value,
    {
        NamedValidationArgument { name, value }
    }

    /// Returns the borrowed parameter name.
    pub fn name(&self) -> (r: &'a str)
        ensures
            r == self.spec_name(),
    {
        self.name
    }

    /// Returns the copyable typed parameter value.
    pub fn value(&self) -> (r: ValidationArgument<'a>)
        ensures
            r == self.spec_value(),
    {
        self.value
    }

    /// The description of the parameter, which names its value's shape only.
    pub open spec fn spec_redacted(self) -> Seq<char> {
        "NamedValidationArgument { value: "@ + self.spec_value().spec_redacted() + " }"@
    }

    /// Describes the parameter without exposing its name or contents.
    pub fn redacted(&self) -> (r: String)
        ensures
            r@ == self.spec_redacted(),
    {
        let mut text = String::from_str("NamedValidationArgument { value: ");
        let value = self.value.redacted();
        text.append(value.as_str());
        text.append(" }");
        text
    }
}

/// The redacted description reveals neither the name nor the value: two
/// parameters whose values have the same shape are described alike.
pub proof fn lemma_named_redaction_hides_names(a: NamedValidationArgument, b: NamedValidationArgument)
    requires
        same_shape(a.spec_value(), b.spec_value()),
    ensures
        a.spec_redacted() == b.spec_redacted(),
{
}

} // verus!

//! Domain-neutral validator parameter values.

use vstd::prelude::*;
use vstd::string::StringExecFns;

use crate::internal::text::count_text;
use crate::internal::text::describe_count;

verus! {

/// One statically typed validator parameter value.
///
/// Borrowed strings and slices remain valid for the argument's lifetime.
/// [`Self::redacted`] describes the value without exposing scalar contents
/// and shows only collection lengths.
#[derive(Clone, Copy, PartialEq, Eq)]
#[non_exhaustive]
pub enum ValidationArgument<'a> {
    /// A Boolean value.
    Bool(
        /// The supplied Boolean value.
        bool,
    ),
    /// A signed integer value.
    Integer(
        /// The supplied signed integer value.
        i128,
    ),
    /// An unsigned integer value.
    Unsigned(
        /// The supplied unsigned integer value.
        u128,
    ),
    /// A string value.
    String(
        /// The supplied borrowed string.
        &'a str,
    ),
    /// A Boolean list.
    BoolList(
        /// The supplied borrowed Boolean slice.
        &'a [bool],
    ),
    /// A signed integer list.
    IntegerList(
        /// The supplied borrowed signed integer slice.
        &'a [i128],
    ),
    /// An unsigned integer list.
    UnsignedList(
        /// The supplied borrowed unsigned integer slice.
        &'a [u128],
    ),
    /// A string list.
    StringList(
        /// The supplied borrowed slice of borrowed strings.
        &'a [&'a str],
    ),
}

impl<'a> ValidationArgument<'a> {
    /// The redacted description of this value.
    pub open spec fn spec_redacted(self) -> Seq<char> {
        match self {
            ValidationArgument::Bool(_) => "Bool(<redacted>)"@,
            ValidationArgument::Integer(_) => "Integer(<redacted>)"@,
            ValidationArgument::Unsigned(_) => "Unsigned(<redacted>)"@,
            ValidationArgument::String(_) => "String(<redacted>)"@,
            ValidationArgument::BoolList(values) => count_text("BoolList"@, "len"@, values@.len(), false),
            ValidationArgument::IntegerList(values) => count_text("IntegerList"@, "len"@, values@.len(), false),
            ValidationArgument::UnsignedList(values) => count_text("UnsignedList"@, "len"@, values@.len(), false),
            ValidationArgument::StringList(values) => count_text("StringList"@, "len"@, values@.len(), false),
        }
    }

    /// Describes the value shape without exposing scalar contents; lists
    /// show only their length.
    pub fn redacted(&self) -> (r: String)
        ensures
            r@ == self.spec_redacted(),
    {
        match self {
            ValidationArgument::Bool(_) => String::from_str("Bool(<redacted>)"),
            ValidationArgument::Integer(_) => String::from_str("Integer(<redacted>)"),
            ValidationArgument::Unsigned(_) => String::from_str("Unsigned(<redacted>)"),
            ValidationArgument::String(_) => String::from_str("String(<redacted>)"),
            ValidationArgument::BoolList(values) => describe_count("BoolList", "len", values.len(), false),
            ValidationArgument::IntegerList(values) => describe_count("IntegerList", "len", values.len(), false),
            ValidationArgument::UnsignedList(values) => describe_count("UnsignedList", "len", values.len(), false),
            ValidationArgument::StringList(values) => describe_count("StringList", "len", values.len(), false),
        }
    }
}

/// Two arguments have the same shape: the same variant and, for lists,
/// the same length.
pub open spec fn same_shape(a: ValidationArgument, b: ValidationArgument) -> bool {
    match (a, b) {
        (ValidationArgument::Bool(_), ValidationArgument::Bool(_)) => true,
        (ValidationArgument::Integer(_), ValidationArgument::Integer(_)) => true,
        (ValidationArgument::Unsigned(_), ValidationArgument::Unsigned(_)) => true,
        (ValidationArgument::String(_), ValidationArgument::String(_)) => true,
        (ValidationArgument::BoolList(x), ValidationArgument::BoolList(y)) => x@.len() == y@.len(),
        (ValidationArgument::IntegerList(x), ValidationArgument::IntegerList(y)) => x@.len() == y@.len(),
        (ValidationArgument::UnsignedList(x), ValidationArgument::UnsignedList(y)) => x@.len() == y@.len(),
        (ValidationArgument::StringList(x), ValidationArgument::StringList(y)) => x@.len() == y@.len(),
        _ => false,
    }
}

/// The redacted description reveals no value: arguments of the same shape
/// are described alike, whatever they hold.
pub proof fn lemma_redaction_hides_values(a: ValidationArgument, b: ValidationArgument)
    requires
        same_shape(a, b),
    ensures
        a.spec_redacted() == b.spec_redacted(),
{
}

} // verus!

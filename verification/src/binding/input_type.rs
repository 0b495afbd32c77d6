//! Erased input shapes accepted by prepared validators.

use std::any::TypeId;

use vstd::prelude::*;
use vstd::string::StringExecFns;

use super::type_identity::type_id_eq;
use super::type_identity::type_id_of;
use super::type_identity::type_id_text;
use super::ValidationValue;

verus! {

/// The two intentionally small input views used by the validation boundary.
#[derive(Clone, Copy, Debug, PartialEq, Eq)]
#[non_exhaustive]
pub enum InputType {
    /// A borrowed UTF-8 text view.
    Text,
    /// A value whose concrete Rust type must match exactly.
    Typed(
        /// The exact concrete type accepted at the erased boundary.
        TypeId,
    ),
}

/// Whether an input shape accepts a value: text accepts text, a typed shape
/// accepts a typed value of exactly its type, and nothing accepts the missing
/// marker.
pub open spec fn shape_accepts(input: InputType, value: ValidationValue) -> bool {
    match (input, value) {
        (InputType::Text, ValidationValue::Text(_)) => true,
        (InputType::Typed(expected), ValidationValue::Typed(typed)) => typed.spec_type_id() == expected,
        _ => false,
    }
}

impl InputType {
    /// Creates a typed input descriptor for `T`.
    pub fn of<T: 'static>() -> (r: Self)
        ensures
            r is Typed,
    {
        InputType::Typed(type_id_of::<T>())
    }

    /// Returns whether this descriptor accepts the supplied input shape.
    pub fn accepts(self, value: ValidationValue<'_>) -> (r: bool)
        ensures
            r == shape_accepts(self, value),
    {
        match (self, value) {
            (InputType::Text, ValidationValue::Text(_)) => true,
            (InputType::Typed(expected), ValidationValue::Typed(typed)) => type_id_eq(typed.type_id(), expected),
            _ => false,
        }
    }

    /// Whether two input shapes are the same.
    pub fn same(self, other: InputType) -> (r: bool)
        ensures
            r == (self == other),
    {
        match (self, other) {
            (InputType::Text, InputType::Text) => true,
            (InputType::Typed(left), InputType::Typed(right)) => type_id_eq(left, right),
            _ => false,
        }
    }

    /// Formats the shape as `Debug` writes it: `Text`, or `Typed(..)` around
    /// the type identifier's text.
    pub fn to_debug_string(self) -> (r: String)
        ensures
            self is Text ==> r@ == "Text"@,
            self is Typed ==> exists|id: Seq<char>| r@ == "Typed("@ + id + ")"@,
    {
        match self {
            InputType::Text => String::from_str("Text"),
            InputType::Typed(id) => {
                let mut text = String::from_str("Typed(");
                let inner = type_id_text(id);
                let ghost id_text = inner@;
                text.append(inner.as_str());
                text.append(")");
                assert(text@ == "Typed("@ + id_text + ")"@);
                text
            },
        }
    }
}

} // verus!

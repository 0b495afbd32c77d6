//! Borrowed values passed across the erased validation boundary.


use std::any::TypeId;

use vstd::prelude::*;

use super::type_identity::type_id_of;
use super::type_identity::AnyRef;
use super::InputType;

verus! {

/// A borrowed value of some concrete type, with its exact type identity.
#[derive(Clone, Copy)]
pub struct TypedRef<'a> {
    /// The concrete type of `value`.
    type_id: TypeId,
    /// The borrowed value.
    value: AnyRef<'a>,
}

impl<'a> TypedRef<'a> {
    /// The exact type of the value.
    pub closed spec fn spec_type_id(self) -> TypeId {
        self.type_id
    }

    /// Borrows a value together with its exact type identity.
    pub fn new<T: 'static>(value: &'a T) -> (r: Self) {
        TypedRef { type_id: type_id_of::<T>(), value: AnyRef::new(value) }
    }

    /// Returns the exact type of the value.
    pub fn type_id(&self) -> (r: TypeId)
        ensures
            r == self.spec_type_id(),
    {
        self.type_id
    }

    /// Borrows the value as `T` when its concrete type is exactly `T`.
    pub fn downcast<T: 'static>(self) -> Option<&'a T> {
        self.value.downcast::<T>()
    }
}

/// A value view that deliberately avoids implicit stringification and cloning.
#[derive(Clone, Copy)]
#[non_exhaustive]
pub enum ValidationValue<'a> {
    /// A borrowed UTF-8 string slice.
    Text(
        /// Raw text borrowed only for the duration of validation.
        &'a str,
    ),
    /// A borrowed value with an exact concrete type.
    Typed(
        /// Raw typed value borrowed only for the duration of validation.
        TypedRef<'a>,
    ),
    /// An explicitly expanded optional value which is absent.
    Missing,
}

impl<'a> ValidationValue<'a> {
    /// Borrows a typed value.
    pub fn from_typed<T: 'static>(value: &'a T) -> (r: Self)
        ensures
            r is Typed,
    {
        ValidationValue::Typed(TypedRef::new(value))
    }

    /// Returns the concrete input shape, if one is present.
    pub fn input_type(self) -> (r: Option<InputType>)
        ensures
            r == match self {
                ValidationValue::Text(_) => Some(InputType::Text),
                ValidationValue::Typed(typed) => Some(InputType::Typed(typed.spec_type_id())),
                ValidationValue::Missing => None,
            },
    {
        match self {
            ValidationValue::Text(_) => Some(InputType::Text),
            ValidationValue::Typed(typed) => Some(InputType::Typed(typed.type_id())),
            ValidationValue::Missing => None,
        }
    }

    /// Returns the text view when this is a text value.
    pub fn as_text(self) -> (r: Option<&'a str>)
        ensures
            r == match self {
                ValidationValue::Text(text) => Some(text),
                _ => None,
            },
    {
        match self {
            ValidationValue::Text(text) => Some(text),
            _ => None,
        }
    }

    /// Returns whether this value is the explicit missing marker.
    pub fn is_missing(self) -> (r: bool)
        ensures
            r == (self is Missing),
    {
        match self {
            ValidationValue::Missing => true,
            _ => false,
        }
    }

    /// Attempts to borrow the value as its exact concrete type.
    pub fn typed<T: 'static>(self) -> (r: Option<&'a T>)
        ensures
            r is Some ==> self is Typed,
    {
        match self {
            ValidationValue::Typed(typed) => typed.downcast::<T>(),
            _ => None,
        }
    }

    /// The shape of the value, with raw input always redacted.
    pub fn redacted(self) -> (r: &'static str)
        ensures
            r@ == match self {
                ValidationValue::Text(_) => "Text(<redacted>)"@,
                ValidationValue::Typed(_) => "Typed(<redacted>)"@,
                ValidationValue::Missing => "Missing"@,
            },
    {
        match self {
            ValidationValue::Text(_) => "Text(<redacted>)",
            ValidationValue::Typed(_) => "Typed(<redacted>)",
            ValidationValue::Missing => "Missing",
        }
    }
}

} // verus!

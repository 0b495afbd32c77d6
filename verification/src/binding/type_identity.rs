//! Exact runtime type identity for erased typed values.
//!
//! Verus cannot reason about `dyn Any`, so a typed value is carried as its
//! `TypeId` together with an opaque borrowed reference; the library's shape
//! checks compare the stored `TypeId`s.

use std::any::Any;
use std::any::TypeId;

use vstd::prelude::*;

verus! {

/// `std::any::TypeId`, declared to Verus as an opaque type.
#[verifier::external_type_specification]
#[verifier::external_body]
pub struct ExTypeId(TypeId);

/// The `TypeId` of `T` (`TypeId::of`).
///
/// Trusted, with no postcondition: the identifier depends on the type
/// argument only, which a contract here cannot name.
#[verifier::external_body]
pub(crate) fn type_id_of<T: ?Sized + 'static>() -> TypeId {
    TypeId::of::<T>()
}

/// Whether two type identifiers are equal (`TypeId`'s `==`).
///
/// Trusted: the standard library documents that two `TypeId`s are equal
/// exactly when they identify the same type; this states that `==` agrees
/// with equality of the identifiers.
#[verifier::external_body]
pub(crate) fn type_id_eq(left: TypeId, right: TypeId) -> (r: bool)
    ensures
        r == (left == right),
{
    left == right
}

/// The `Debug` text of a type identifier (`format!("{:?}", id)`).
///
/// Trusted, with no postcondition: the standard library leaves the text of a
/// `TypeId` unspecified.
#[verifier::external_body]
pub(crate) fn type_id_text(id: TypeId) -> String {
    format!("{:?}", id)
}

/// A borrowed value seen through `&dyn Any`, opaque to Verus.
///
/// Trusted type: Verus refuses `dyn Any` ("trait core::any::Any not declared
/// to Verus"), so the reference is hidden in this struct.
#[verifier::external_body]
#[derive(Copy)]
pub struct AnyRef<'a> {
    /// The borrowed value.
    value: &'a dyn Any,
}

impl<'a> Clone for AnyRef<'a> {
    /// Copies the reference.
    #[verifier::external_body]
    fn clone(&self) -> Self {
        *self
    }
}

impl<'a> AnyRef<'a> {
    /// Erases a borrowed value to `&dyn Any` (an unsizing coercion).
    ///
    /// Trusted, with no postcondition: nothing about the opaque result can be
    /// stated.
    #[verifier::external_body]
    pub(crate) fn new<T: 'static>(value: &'a T) -> AnyRef<'a> {
        AnyRef { value }
    }

    /// Borrows the value as `T` when its concrete type is exactly `T`
    /// (`<dyn Any>::downcast_ref`).
    ///
    /// Trusted, with no postcondition: whether the type matches cannot be
    /// named in a contract here.
    #[verifier::external_body]
    pub(crate) fn downcast<T: 'static>(self) -> Option<&'a T> {
        self.value.downcast_ref::<T>()
    }
}

} // verus!

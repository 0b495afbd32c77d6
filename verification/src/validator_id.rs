//! Stable validator identifiers.

use vstd::prelude::*;
use vstd::string::StringExecFns;
use vstd::string::StringSliceAdditionalSpecFns;

use crate::internal::dotted_identifier_result;
use crate::internal::is_dotted_identifier;
use crate::internal::validate_dotted_identifier;
use crate::ValidatorIdError;

verus! {

/// A stable, dotted ASCII identifier naming one validator definition, such as
/// `text.non_blank`.
#[derive(Clone, Copy, Debug, PartialEq, Eq, PartialOrd, Ord, Hash)]
pub struct ValidatorId {
    /// The identifier text; always a well-formed dotted identifier.
    id: &'static str,
}

impl ValidatorId {
    #[verifier::type_invariant]
    spec fn well_formed(self) -> bool {
        is_dotted_identifier(self.id.spec_bytes())
    }

    /// The identifier text.
    pub closed spec fn text(self) -> &'static str {
        self.id
    }

    /// Creates an identifier from text that is known to be well formed.
    ///
    /// # Panics
    ///
    /// The text must be a dotted identifier: non-empty `.`-separated segments
    /// that start with an ASCII letter and continue with ASCII letters,
    /// digits or `_`.
    pub fn new(id: &'static str) -> (r: Self)
        requires
            is_dotted_identifier(id.spec_bytes()),
        ensures
            r.text() == id,
    {
        ValidatorId { id }
    }

    /// Creates an identifier after checking the dotted identifier protocol.
    ///
    /// # Errors
    ///
    /// Returns the structural reason the text is not a dotted identifier.
    pub fn try_new(id: &'static str) -> (r: Result<Self, ValidatorIdError>)
        ensures
            match dotted_identifier_result(id.spec_bytes()) {
                Ok(()) => r matches Ok(v) && v.text() == id,
                Err(e) => r == Err::<Self, ValidatorIdError>(ValidatorIdError::from_dotted(e)),
            },
    {
        match validate_dotted_identifier(id) {
            Ok(()) => Ok(ValidatorId { id }),
            Err(error) => Err(ValidatorIdError::from_dotted_error(error)),
        }
    }

    /// Returns the identifier text.
    pub fn as_str(&self) -> (r: &'static str)
        ensures
            r == self.text(),
            is_dotted_identifier(r.spec_bytes()),
    {
        proof {
            use_type_invariant(self);
        }
        self.id
    }
}

impl View for ValidatorId {
    type V = Seq<char>;

    open spec fn view(&self) -> Seq<char> {
        self.text()@
    }
}

/// An identifier as `Debug` writes it: `ValidatorId { id: "..." }`.
pub open spec fn id_debug_text(id: ValidatorId) -> Seq<char> {
    "ValidatorId { id: \""@ + id.text()@ + "\" }"@
}

/// Appends an identifier as `Debug` writes it.
pub(crate) fn push_id(text: &mut String, id: ValidatorId)
    ensures
        final(text)@ == old(text)@ + id_debug_text(id),
{
    text.append("ValidatorId { id: \"");
    text.append(id.as_str());
    text.append("\" }");
}

/// An optional identifier as `Debug` writes it: `None`, or `Some(..)`
/// around the identifier.
pub open spec fn optional_id_text(id: Option<ValidatorId>) -> Seq<char> {
    match id {
        Some(id) => "Some("@ + id_debug_text(id) + ")"@,
        None => "None"@,
    }
}

/// Appends an optional identifier as `Debug` writes it.
pub(crate) fn push_optional_id(text: &mut String, id: Option<ValidatorId>)
    ensures
        final(text)@ == old(text)@ + optional_id_text(id),
{
    match id {
        Some(id) => {
            text.append("Some(");
            push_id(text, id);
            text.append(")");
        },
        None => text.append("None"),
    }
}

/// `"true"` or `"false"`.
pub open spec fn bool_text(b: bool) -> Seq<char> {
    if b { "true"@ } else { "false"@ }
}

/// Returns `"true"` or `"false"`.
pub(crate) fn bool_str(b: bool) -> (r: &'static str)
    ensures
        r@ == bool_text(b),
{
    if b { "true" } else { "false" }
}

} // verus!

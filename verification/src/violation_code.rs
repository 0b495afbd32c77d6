//! Stable violation codes.

use vstd::prelude::*;
use vstd::string::StringSliceAdditionalSpecFns;

use crate::internal::dotted_identifier_result;
use crate::internal::is_dotted_identifier;
use crate::internal::validate_dotted_identifier;
use crate::ViolationCodeError;

verus! {

/// A stable, dotted ASCII identifier naming one kind of violation, such as
/// `text.blank`.
#[derive(Clone, Copy, Debug, PartialEq, Eq, PartialOrd, Ord, Hash)]
pub struct ViolationCode {
    /// The code text; always a well-formed dotted identifier.
    id: &'static str,
}

impl ViolationCode {
    #[verifier::type_invariant]
    spec fn well_formed(self) -> bool {
        is_dotted_identifier(self.id.spec_bytes())
    }

    /// The code text.
    pub closed spec fn text(self) -> &'static str {
        self.id
    }

    /// Creates a code from text that is known to be well formed.
    ///
    /// # Panics
    ///
    /// The text must be a dotted identifier: non-empty `.`-separated segments
    /// that start with an ASCII letter and continue with ASCII letters,
    /// digits or `_`.
    pub fn new(id: &'static str) -> (r: Self)
        requires
            is_dotted_identifier(id.spec_bytes()),
        ensures
            r.text() == id,
    {
        ViolationCode { id }
    }

    /// Creates a code after checking the dotted identifier protocol.
    ///
    /// # Errors
    ///
    /// Returns the structural reason the text is not a dotted identifier.
    pub fn try_new(id: &'static str) -> (r: Result<Self, ViolationCodeError>)
        ensures
            match dotted_identifier_result(id.spec_bytes()) {
                Ok(()) => r matches Ok(v) && v.text() == id,
                Err(e) => r == Err::<Self, ViolationCodeError>(ViolationCodeError::from_dotted(e)),
            },
    {
        match validate_dotted_identifier(id) {
            Ok(()) => Ok(ViolationCode { id }),
            Err(error) => Err(ViolationCodeError::from_dotted_error(error)),
        }
    }

    /// Returns the code text.
    pub fn as_str(&self) -> (r: &'static str)
        ensures
            r == self.text(),
            is_dotted_identifier(r.spec_bytes()),
    {
        proof {
            use_type_invariant(self);
        }
        self.id
    }
}

impl View for ViolationCode {
    type V = Seq<char>;

    open spec fn view(&self) -> Seq<char> {
        self.text()@
    }
}

} // verus!

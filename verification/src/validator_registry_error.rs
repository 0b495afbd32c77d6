//! Errors found while freezing a validator registry.

use vstd::prelude::*;
use vstd::string::StringExecFns;

use crate::BindErrorKind;
use crate::RegistrationSource;
use crate::ValidatorId;

verus! {

/// Why a set of registrations cannot form a registry.
#[derive(Clone, Debug)]
#[allow(inconsistent_fields)]
pub enum ValidatorRegistryError {
    /// Several registrations declare the same stable identifier.
    DuplicateId {
        /// The repeated identifier.
        id: &'static str,
        /// The source of every registration declaring it, in source order.
        sources: Vec<RegistrationSource>,
    },
    /// A registration's descriptor is malformed.
    InvalidDescriptor {
        /// The identifier of the registration.
        id: ValidatorId,
        /// Where the registration was declared.
        registration_source: RegistrationSource,
        /// Why the descriptor is malformed.
        kind: BindErrorKind,
    },
}

impl ValidatorRegistryError {
    /// The human-readable summary of an error.
    pub open spec fn spec_text(self) -> Seq<char> {
        match self {
            ValidatorRegistryError::DuplicateId { id, .. } => "duplicate validator id: "@ + id@,
            ValidatorRegistryError::InvalidDescriptor { id, kind, .. } => "invalid validator descriptor "@ + id@ + ": "@ + kind.spec_text(),
        }
    }

    /// Formats a human-readable summary of the error.
    pub fn to_string(&self) -> (r: String)
        ensures
            r@ == self.spec_text(),
    {
        match self {
            ValidatorRegistryError::DuplicateId { id, .. } => {
                let message = String::from_str("duplicate validator id: ");
                message.concat(id)
            },
            ValidatorRegistryError::InvalidDescriptor { id, kind, .. } => {
                let message = String::from_str("invalid validator descriptor ");
                let message = message.concat(id.as_str());
                let message = message.concat(": ");
                message.concat(kind.as_str())
            },
        }
    }
}

} // verus!

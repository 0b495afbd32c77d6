//! Validator registrations.

use vstd::prelude::*;

use super::RegistrationSource;
use super::ValidatorDescriptor;
use crate::ValidatorId;

verus! {

/// One validator definition associated with a stable identifier.
#[derive(Clone, Copy)]
pub struct ValidatorRegistration {
    /// Stable identifier of the definition.
    id: ValidatorId,
    /// Immutable definition.
    descriptor: &'static ValidatorDescriptor,
    /// Source location used for duplicate diagnostics.
    source: RegistrationSource,
}

impl ValidatorRegistration {
    /// The stable identifier.
    pub closed spec fn spec_id(self) -> ValidatorId {
        self.id
    }

    /// The immutable definition.
    pub closed spec fn spec_descriptor(self) -> ValidatorDescriptor {
        *self.descriptor
    }

    /// The source location.
    pub closed spec fn spec_source(self) -> RegistrationSource {
        self.source
    }

    /// Creates a registration from static facts.
    pub fn new(id: ValidatorId, descriptor: &'static ValidatorDescriptor, source: RegistrationSource) -> (r: Self)
        ensures
            r.spec_id() == id,
            r.spec_descriptor() == *descriptor,
            r.spec_source() == source,
    {
        ValidatorRegistration { id, descriptor, source }
    }

    /// Returns the stable identifier.
    pub fn id(&self) -> (r: ValidatorId)
        ensures
            r == self.spec_id(),
    {
        self.id
    }

    /// Returns the immutable descriptor.
    pub fn descriptor(&self) -> (r: &'static ValidatorDescriptor)
        ensures
            *r == self.spec_descriptor(),
    {
        self.descriptor
    }

    /// Returns the source location used for duplicate diagnostics.
    pub fn source(&self) -> (r: RegistrationSource)
        ensures
            r == self.spec_source(),
    {
        self.source
    }
}

} // verus!

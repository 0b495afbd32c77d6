//! Contract errors for validation outcomes.

use vstd::prelude::*;

verus! {

/// An outcome that breaks the outcome protocol.
#[derive(Clone, Copy, Debug, PartialEq, Eq, Structural)]
pub enum ValidationOutcomeError {
    /// An invalid outcome carries no violation.
    EmptyViolations,
    /// A failed-prerequisite skip carries no prerequisite violation.
    EmptyPrerequisites,
    /// A missing-optional skip carries prerequisite violations.
    UnexpectedPrerequisites,
}

} // verus!

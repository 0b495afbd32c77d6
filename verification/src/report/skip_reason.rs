//! Reasons a validator occurrence is skipped.

use vstd::prelude::*;

verus! {

/// Why a validator occurrence did not run.
#[derive(Clone, Copy, Debug, PartialEq, Eq, Hash, Structural)]
pub enum SkipReason {
    /// The optional target value is absent.
    MissingOptional,
    /// A prerequisite validation failed.
    FailedPrerequisite,
}

} // verus!

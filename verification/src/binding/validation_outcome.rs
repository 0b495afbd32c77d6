//! Public outcomes produced by bound validators.

use vstd::prelude::*;

use crate::SkipReason;
use crate::ValidationOutcomeError;
use crate::Violation;

verus! {

/// The observable result of executing one bound validator occurrence.
#[derive(Debug, PartialEq, Eq)]
#[non_exhaustive]
pub enum ValidationOutcome {
    /// Input is valid.
    Valid,
    /// Input is invalid.
    Invalid(
        /// One or more safe violations carrying no raw rejected value.
        Vec<Violation>,
    ),
    /// Execution was skipped.
    Skipped {
        /// Reason for skipping.
        reason: SkipReason,
        /// Prerequisite violations.
        prerequisites: Vec<Violation>,
    },
}

impl ValidationOutcome {
    /// Creates a successful validation outcome.
    pub fn valid() -> (r: Self)
        ensures
            r is Valid,
    {
        ValidationOutcome::Valid
    }

    /// Creates an invalid outcome with one or more violations.
    ///
    /// # Errors
    ///
    /// Returns `EmptyViolations` when `violations` is empty.
    pub fn invalid(violations: Vec<Violation>) -> (r: Result<Self, ValidationOutcomeError>)
        ensures
            violations@.len() == 0 ==> r == Err::<Self, ValidationOutcomeError>(ValidationOutcomeError::EmptyViolations),
            violations@.len() > 0 ==> r == Ok::<Self, ValidationOutcomeError>(ValidationOutcome::Invalid(violations)),
    {
        if violations.len() == 0 {
            return Err(ValidationOutcomeError::EmptyViolations);
        }
        Ok(ValidationOutcome::Invalid(violations))
    }

    /// Creates an outcome skipped because the optional target is absent.
    pub fn missing_optional() -> (r: Self)
        ensures
            r matches ValidationOutcome::Skipped { reason, prerequisites }
                && reason == SkipReason::MissingOptional && prerequisites@.len() == 0,
    {
        ValidationOutcome::Skipped { reason: SkipReason::MissingOptional, prerequisites: Vec::new() }
    }

    /// Creates an outcome skipped after at least one prerequisite failed.
    ///
    /// # Errors
    ///
    /// Returns `EmptyPrerequisites` when `prerequisites` is empty.
    pub fn failed_prerequisite(prerequisites: Vec<Violation>) -> (r: Result<Self, ValidationOutcomeError>)
        ensures
            prerequisites@.len() == 0 ==> r == Err::<Self, ValidationOutcomeError>(ValidationOutcomeError::EmptyPrerequisites),
            prerequisites@.len() > 0 ==> r == Ok::<Self, ValidationOutcomeError>(
                ValidationOutcome::Skipped { reason: SkipReason::FailedPrerequisite, prerequisites },
            ),
    {
        if prerequisites.len() == 0 {
            return Err(ValidationOutcomeError::EmptyPrerequisites);
        }
        Ok(ValidationOutcome::Skipped { reason: SkipReason::FailedPrerequisite, prerequisites })
    }
}

} // verus!

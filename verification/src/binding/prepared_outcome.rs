//! Type-erased results produced by prepared validators.

use vstd::prelude::*;

use super::ValidationOutcome;
use super::ViolationDraft;
use crate::SkipReason;
use crate::ValidationOutcomeError;
use crate::ValidatorId;
use crate::Violation;

verus! {

broadcast use vstd::std_specs::vec::axiom_spec_into_iter;

/// The type-erased result produced before rule identity is attached.
#[derive(Debug, PartialEq, Eq)]
#[non_exhaustive]
pub enum PreparedOutcome {
    /// Input is valid.
    Valid,
    /// Input is invalid with draft violations.
    Invalid(
        /// One or more safe draft violations produced by the validator.
        Vec<ViolationDraft>,
    ),
    /// Execution was skipped.
    Skipped {
        /// Reason for skipping.
        reason: SkipReason,
        /// Prerequisite violations.
        prerequisites: Vec<Violation>,
    },
}

/// `violations` are `drafts`, one for one and in order, each given the
/// identity `rule_id`.
pub open spec fn bound_drafts(rule_id: ValidatorId, drafts: Seq<ViolationDraft>, violations: Seq<Violation>) -> bool {
    &&& violations.len() == drafts.len()
    &&& forall|i: int| 0 <= i < drafts.len() ==> {
        &&& #[trigger] violations[i].spec_rule_id() == rule_id
        &&& violations[i].spec_code() == drafts[i].spec_code()
        &&& violations[i].spec_path() == drafts[i].spec_path()
        &&& violations[i].spec_params() == drafts[i].spec_params()
    }
}

/// The outcome protocol error of a prepared outcome, if it breaks the
/// protocol: an invalid outcome needs a draft, a missing-optional skip takes
/// no prerequisite and a failed-prerequisite skip needs one.
pub open spec fn prepared_protocol_error(outcome: PreparedOutcome) -> Option<ValidationOutcomeError> {
    match outcome {
        PreparedOutcome::Valid => None,
        PreparedOutcome::Invalid(drafts) => if drafts@.len() == 0 {
            Some(ValidationOutcomeError::EmptyViolations)
        } else {
            None
        },
        PreparedOutcome::Skipped { reason, prerequisites } => match reason {
            SkipReason::MissingOptional => if prerequisites@.len() != 0 {
                Some(ValidationOutcomeError::UnexpectedPrerequisites)
            } else {
                None
            },
            SkipReason::FailedPrerequisite => if prerequisites@.len() == 0 {
                Some(ValidationOutcomeError::EmptyPrerequisites)
            } else {
                None
            },
        },
    }
}

/// The outcome is valid, or invalid with exactly one draft: the result of a
/// single typed validator whose domain error maps to one draft.
pub open spec fn valid_or_one_draft(outcome: PreparedOutcome) -> bool {
    match outcome {
        PreparedOutcome::Valid => true,
        PreparedOutcome::Invalid(drafts) => drafts@.len() == 1,
        _ => false,
    }
}

/// `bound` is `outcome` with the rule identity `rule_id` attached.
pub open spec fn is_bound_outcome(outcome: PreparedOutcome, rule_id: ValidatorId, bound: ValidationOutcome) -> bool {
    match outcome {
        PreparedOutcome::Valid => bound is Valid,
        PreparedOutcome::Invalid(drafts) => bound matches ValidationOutcome::Invalid(violations)
            && bound_drafts(rule_id, drafts@, violations@),
        PreparedOutcome::Skipped { reason, prerequisites } => bound == ValidationOutcome::Skipped { reason, prerequisites },
    }
}

impl PreparedOutcome {
    /// Creates a successful prepared outcome.
    pub fn valid() -> (r: Self)
        ensures
            r is Valid,
    {
        PreparedOutcome::Valid
    }

    /// Creates an invalid prepared outcome with one or more violation drafts.
    ///
    /// # Errors
    ///
    /// Returns `EmptyViolations` when `violations` is empty.
    pub fn invalid(violations: Vec<ViolationDraft>) -> (r: Result<Self, ValidationOutcomeError>)
        ensures
            violations@.len() == 0 ==> r == Err::<Self, ValidationOutcomeError>(ValidationOutcomeError::EmptyViolations),
            violations@.len() > 0 ==> r == Ok::<Self, ValidationOutcomeError>(PreparedOutcome::Invalid(violations)),
    {
        if violations.len() == 0 {
            return Err(ValidationOutcomeError::EmptyViolations);
        }
        Ok(PreparedOutcome::Invalid(violations))
    }

    /// Creates a prepared outcome skipped because the optional target is
    /// absent.
    pub fn missing_optional() -> (r: Self)
        ensures
            r matches PreparedOutcome::Skipped { reason, prerequisites }
                && reason == SkipReason::MissingOptional && prerequisites@.len() == 0,
    {
        PreparedOutcome::Skipped { reason: SkipReason::MissingOptional, prerequisites: Vec::new() }
    }

    /// Creates a prepared outcome skipped after a prerequisite failed.
    ///
    /// # Errors
    ///
    /// Returns `EmptyPrerequisites` when `prerequisites` is empty.
    pub fn failed_prerequisite(prerequisites: Vec<Violation>) -> (r: Result<Self, ValidationOutcomeError>)
        ensures
            prerequisites@.len() == 0 ==> r == Err::<Self, ValidationOutcomeError>(ValidationOutcomeError::EmptyPrerequisites),
            prerequisites@.len() > 0 ==> r == Ok::<Self, ValidationOutcomeError>(
                PreparedOutcome::Skipped { reason: SkipReason::FailedPrerequisite, prerequisites },
            ),
    {
        if prerequisites.len() == 0 {
            return Err(ValidationOutcomeError::EmptyPrerequisites);
        }
        Ok(PreparedOutcome::Skipped { reason: SkipReason::FailedPrerequisite, prerequisites })
    }

    /// Attaches a bound rule identity to draft violations.
    ///
    /// # Errors
    ///
    /// Returns an outcome contract error when an invalid result is empty or
    /// a skipped result has prerequisites inconsistent with its reason.
    pub fn into_bound(self, rule_id: ValidatorId) -> (r: Result<ValidationOutcome, ValidationOutcomeError>)
        ensures
            match prepared_protocol_error(self) {
                Some(error) => r == Err::<ValidationOutcome, ValidationOutcomeError>(error),
                None => r matches Ok(bound) && is_bound_outcome(self, rule_id, bound),
            },
    {
        match self {
            PreparedOutcome::Valid => Ok(ValidationOutcome::Valid),
            PreparedOutcome::Invalid(drafts) => {
                if drafts.len() == 0 {
                    return Err(ValidationOutcomeError::EmptyViolations);
                }
                let ghost draft_seq = drafts@;
                let mut violations: Vec<Violation> = Vec::new();
                for draft in iter: drafts.into_iter()
                    invariant
                        iter.seq() == draft_seq,
                        bound_drafts(rule_id, draft_seq.take(iter.index() as int), violations@),
                {
                    let violation = Violation::from_draft(rule_id, draft);
                    violations.push(violation);
                }
                assert(draft_seq.take(draft_seq.len() as int) =~= draft_seq);
                Ok(ValidationOutcome::Invalid(violations))
            },
            PreparedOutcome::Skipped { reason, prerequisites } => match reason {
                SkipReason::MissingOptional => {
                    if prerequisites.len() != 0 {
                        Err(ValidationOutcomeError::UnexpectedPrerequisites)
                    } else {
                        Ok(ValidationOutcome::Skipped { reason, prerequisites })
                    }
                },
                SkipReason::FailedPrerequisite => {
                    if prerequisites.len() == 0 {
                        Err(ValidationOutcomeError::EmptyPrerequisites)
                    } else {
                        Ok(ValidationOutcome::Skipped { reason, prerequisites })
                    }
                },
            },
        }
    }
}

} // verus!

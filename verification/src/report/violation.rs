//! Safe public violations.

use vstd::prelude::*;

use super::ValidationPath;
use super::ViolationParams;
use crate::ValidatorId;
use crate::ViolationCode;
use crate::ViolationDraft;

verus! {

/// A violation reported by one bound validator occurrence. It carries the
/// rule identity, a program-declared code, a structured path and safe
/// parameters, never the rejected value.
#[derive(Debug, PartialEq, Eq)]
pub struct Violation {
    /// The rule that reported the violation.
    rule_id: ValidatorId,
    /// The program-declared violation code.
    code: ViolationCode,
    /// The structured location of the violation.
    path: ValidationPath,
    /// Safe structured parameters.
    params: ViolationParams,
}

impl Violation {
    /// The reporting rule.
    pub closed spec fn spec_rule_id(self) -> ValidatorId {
        self.rule_id
    }

    /// The violation code.
    pub closed spec fn spec_code(self) -> ViolationCode {
        self.code
    }

    /// The violation path.
    pub closed spec fn spec_path(self) -> ValidationPath {
        self.path
    }

    /// The violation parameters.
    pub closed spec fn spec_params(self) -> ViolationParams {
        self.params
    }

    /// Creates a violation at the root path without parameters.
    pub fn new(rule_id: ValidatorId, code: ViolationCode) -> (r: Self)
        ensures
            r.spec_rule_id() == rule_id,
            r.spec_code() == code,
            r.spec_path()@ == Seq::<crate::report::path_segment::SegmentView>::empty(),
            r.spec_params()@ == Map::<Seq<char>, crate::ViolationParam>::empty(),
    {
        Violation { rule_id, code, path: ValidationPath::root(), params: ViolationParams::new() }
    }

    /// Gives a rule-local draft the identity of the rule that produced it.
    pub fn from_draft(rule_id: ValidatorId, draft: ViolationDraft) -> (r: Self)
        ensures
            r.spec_rule_id() == rule_id,
            r.spec_code() == draft.spec_code(),
            r.spec_path() == draft.spec_path(),
            r.spec_params() == draft.spec_params(),
    {
        let (code, path, params) = draft.parts();
        Violation { rule_id, code, path, params }
    }

    /// Returns the reporting rule.
    pub fn rule_id(&self) -> (r: ValidatorId)
        ensures
            r == self.spec_rule_id(),
    {
        self.rule_id
    }

    /// Returns the violation code.
    pub fn code(&self) -> (r: ViolationCode)
        ensures
            r == self.spec_code(),
    {
        self.code
    }

    /// Returns the structured violation path.
    pub fn path(&self) -> (r: &ValidationPath)
        ensures
            *r == self.spec_path(),
    {
        &self.path
    }

    /// Returns the violation parameters.
    pub fn params(&self) -> (r: &ViolationParams)
        ensures
            *r == self.spec_params(),
    {
        &self.params
    }
}

} // verus!

//! Rule-local violations before a bound validator assigns its identity.

use vstd::prelude::*;
use vstd::string::StringExecFns;

use crate::internal::text::count_text;
use crate::internal::text::decimal;
use crate::internal::text::push_decimal;
use crate::ValidationPath;
use crate::ViolationCode;
use crate::ViolationParam;
use crate::ViolationParams;
use crate::report::path_segment::SegmentView;

verus! {

/// A safe violation without a rule identity or raw rejected value.
#[derive(Debug, PartialEq, Eq)]
pub struct ViolationDraft {
    /// Stable, program-declared violation code.
    code: ViolationCode,
    /// Structured location of the violation.
    path: ValidationPath,
    /// Safe structured parameters keyed by program-declared names.
    params: ViolationParams,
}

impl ViolationDraft {
    /// The violation code.
    pub closed spec fn spec_code(self) -> ViolationCode {
        self.code
    }

    /// The violation path.
    pub closed spec fn spec_path(self) -> ValidationPath {
        self.path
    }

    /// The violation parameters.
    pub closed spec fn spec_params(self) -> ViolationParams {
        self.params
    }

    /// Creates a draft at the root path.
    pub fn new(code: ViolationCode) -> (r: Self)
        ensures
            r.spec_code() == code,
            r.spec_path()@ == Seq::<SegmentView>::empty(),
            r.spec_params()@ == Map::<Seq<char>, ViolationParam>::empty(),
    {
        ViolationDraft { code, path: ValidationPath::root(), params: ViolationParams::new() }
    }

    /// Replaces the violation path.
    pub fn with_path(self, path: ValidationPath) -> (r: Self)
        ensures
            r.spec_code() == self.spec_code(),
            r.spec_path() == path,
            r.spec_params() == self.spec_params(),
    {
        ViolationDraft { code: self.code, path, params: self.params }
    }

    /// Adds a structured parameter, replacing an earlier one of that name.
    pub fn with_param(self, name: &'static str, value: ViolationParam) -> (r: Self)
        ensures
            r.spec_code() == self.spec_code(),
            r.spec_path() == self.spec_path(),
            r.spec_params()@ == self.spec_params()@.insert(name@, value),
    {
        let mut params = self.params;
        params.insert(name, value);
        ViolationDraft { code: self.code, path: self.path, params }
    }

    /// Splits the draft into its components for final violation construction.
    pub(crate) fn parts(self) -> (r: (ViolationCode, ValidationPath, ViolationParams))
        ensures
            r.0 == self.spec_code(),
            r.1 == self.spec_path(),
            r.2 == self.spec_params(),
    {
        (self.code, self.path, self.params)
    }

    /// Describes the draft by its code, the length of its path and the number
    /// of its parameters, without their values.
    pub fn redacted(&self) -> (r: String)
        ensures
            r@ == "ViolationDraft { code: ViolationCode { id: \""@ + self.spec_code().text()@ + "\" }, path: "@
                + count_text("ValidationPath"@, "segment_count"@, self.spec_path()@.len(), true)
                + ", parameter_count: "@ + decimal(self.spec_params().entries().len()) + " }"@,
    {
        let mut text = String::from_str("ViolationDraft { code: ViolationCode { id: \"");
        text.append(self.code.as_str());
        text.append("\" }, path: ");
        let path = self.path.redacted();
        text.append(path.as_str());
        text.append(", parameter_count: ");
        push_decimal(&mut text, self.params.len());
        text.append(" }");
        text
    }
}

} // verus!

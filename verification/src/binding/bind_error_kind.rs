//! Binding error kinds.

use vstd::prelude::*;
use vstd::string::StringExecFns;

verus! {

/// A configuration or declaration error found while binding a rule.
#[derive(Clone, Copy, Debug, PartialEq, Eq, Structural)]
#[non_exhaustive]
pub enum BindErrorKind {
    /// A parameter name is not known to the rule.
    UnknownParameter,
    /// A parameter was supplied more than once.
    DuplicateParameter,
    /// A required parameter is absent.
    MissingParameter,
    /// A parameter has already been consumed by this reader.
    ParameterAlreadyConsumed,
    /// A parameter has the wrong value type.
    ParameterTypeMismatch,
    /// A parameter is outside the supported range.
    ParameterOutOfRange,
    /// Bounds are internally inconsistent.
    InvalidBounds,
    /// A pattern cannot be compiled.
    InvalidPattern,
    /// The requested rule is not registered.
    MissingRule,
    /// A registered rule cannot consume the requested input.
    UnsupportedInput,
    /// A dependency declaration is missing.
    MissingDependencyDeclaration,
    /// A dependency declaration is unknown.
    UnknownDependencyDeclaration,
    /// Dependency declarations do not follow the signature's slot order.
    DependencyOrderMismatch,
    /// A prepared implementation disagrees with its declared signature.
    PreparedSignatureMismatch,
    /// A required dependency may be absent on a statically known path.
    DependencyOptionalityMismatch,
    /// A dependency has the wrong type.
    DependencyTypeMismatch,
    /// A dependency path cannot be read.
    UnreadablePath,
    /// More than one signature matches the declaration.
    AmbiguousSignature,
    /// A declared constraint has no implementation.
    UnsupportedConstraint,
    /// An implementation feature is disabled.
    MissingFeature,
    /// A declaration is malformed.
    InvalidDeclaration,
    /// A requested selection is not known.
    InvalidSelection,
}

impl BindErrorKind {
    /// The stable human-readable category.
    pub open spec fn spec_text(self) -> Seq<char> {
        match self {
            BindErrorKind::UnknownParameter => "unknown parameter"@,
            BindErrorKind::DuplicateParameter => "duplicate parameter"@,
            BindErrorKind::MissingParameter => "missing parameter"@,
            BindErrorKind::ParameterAlreadyConsumed => "parameter already consumed"@,
            BindErrorKind::ParameterTypeMismatch => "parameter type mismatch"@,
            BindErrorKind::ParameterOutOfRange => "parameter out of range"@,
            BindErrorKind::InvalidBounds => "invalid bounds"@,
            BindErrorKind::InvalidPattern => "invalid pattern"@,
            BindErrorKind::MissingRule => "missing rule"@,
            BindErrorKind::UnsupportedInput => "unsupported input"@,
            BindErrorKind::MissingDependencyDeclaration => "missing dependency declaration"@,
            BindErrorKind::UnknownDependencyDeclaration => "unknown dependency declaration"@,
            BindErrorKind::DependencyOrderMismatch => "dependency order mismatch"@,
            BindErrorKind::PreparedSignatureMismatch => "prepared signature mismatch"@,
            BindErrorKind::DependencyOptionalityMismatch => "dependency optionality mismatch"@,
            BindErrorKind::DependencyTypeMismatch => "dependency type mismatch"@,
            BindErrorKind::UnreadablePath => "unreadable path"@,
            BindErrorKind::AmbiguousSignature => "ambiguous signature"@,
            BindErrorKind::UnsupportedConstraint => "unsupported constraint"@,
            BindErrorKind::MissingFeature => "missing feature"@,
            BindErrorKind::InvalidDeclaration => "invalid declaration"@,
            BindErrorKind::InvalidSelection => "invalid selection"@,
        }
    }

    /// Returns the stable human-readable category.
    pub fn as_str(&self) -> (r: &'static str)
        ensures
            r@ == self.spec_text(),
    {
        match self {
            BindErrorKind::UnknownParameter => "unknown parameter",
            BindErrorKind::DuplicateParameter => "duplicate parameter",
            BindErrorKind::MissingParameter => "missing parameter",
            BindErrorKind::ParameterAlreadyConsumed => "parameter already consumed",
            BindErrorKind::ParameterTypeMismatch => "parameter type mismatch",
            BindErrorKind::ParameterOutOfRange => "parameter out of range",
            BindErrorKind::InvalidBounds => "invalid bounds",
            BindErrorKind::InvalidPattern => "invalid pattern",
            BindErrorKind::MissingRule => "missing rule",
            BindErrorKind::UnsupportedInput => "unsupported input",
            BindErrorKind::MissingDependencyDeclaration => "missing dependency declaration",
            BindErrorKind::UnknownDependencyDeclaration => "unknown dependency declaration",
            BindErrorKind::DependencyOrderMismatch => "dependency order mismatch",
            BindErrorKind::PreparedSignatureMismatch => "prepared signature mismatch",
            BindErrorKind::DependencyOptionalityMismatch => "dependency optionality mismatch",
            BindErrorKind::DependencyTypeMismatch => "dependency type mismatch",
            BindErrorKind::UnreadablePath => "unreadable path",
            BindErrorKind::AmbiguousSignature => "ambiguous signature",
            BindErrorKind::UnsupportedConstraint => "unsupported constraint",
            BindErrorKind::MissingFeature => "missing feature",
            BindErrorKind::InvalidDeclaration => "invalid declaration",
            BindErrorKind::InvalidSelection => "invalid selection",
        }
    }

    /// Formats the stable human-readable category.
    pub fn to_string(&self) -> (r: String)
        ensures
            r@ == self.spec_text(),
    {
        String::from_str(self.as_str())
    }

    /// The variant's name, as `Debug` writes it.
    pub open spec fn spec_variant_name(self) -> Seq<char> {
        match self {
            BindErrorKind::UnknownParameter => "UnknownParameter"@,
            BindErrorKind::DuplicateParameter => "DuplicateParameter"@,
            BindErrorKind::MissingParameter => "MissingParameter"@,
            BindErrorKind::ParameterAlreadyConsumed => "ParameterAlreadyConsumed"@,
            BindErrorKind::ParameterTypeMismatch => "ParameterTypeMismatch"@,
            BindErrorKind::ParameterOutOfRange => "ParameterOutOfRange"@,
            BindErrorKind::InvalidBounds => "InvalidBounds"@,
            BindErrorKind::InvalidPattern => "InvalidPattern"@,
            BindErrorKind::MissingRule => "MissingRule"@,
            BindErrorKind::UnsupportedInput => "UnsupportedInput"@,
            BindErrorKind::MissingDependencyDeclaration => "MissingDependencyDeclaration"@,
            BindErrorKind::UnknownDependencyDeclaration => "UnknownDependencyDeclaration"@,
            BindErrorKind::DependencyOrderMismatch => "DependencyOrderMismatch"@,
            BindErrorKind::PreparedSignatureMismatch => "PreparedSignatureMismatch"@,
            BindErrorKind::DependencyOptionalityMismatch => "DependencyOptionalityMismatch"@,
            BindErrorKind::DependencyTypeMismatch => "DependencyTypeMismatch"@,
            BindErrorKind::UnreadablePath => "UnreadablePath"@,
            BindErrorKind::AmbiguousSignature => "AmbiguousSignature"@,
            BindErrorKind::UnsupportedConstraint => "UnsupportedConstraint"@,
            BindErrorKind::MissingFeature => "MissingFeature"@,
            BindErrorKind::InvalidDeclaration => "InvalidDeclaration"@,
            BindErrorKind::InvalidSelection => "InvalidSelection"@,
        }
    }

    /// Returns the variant's name.
    pub fn variant_name(&self) -> (r: &'static str)
        ensures
            r@ == self.spec_variant_name(),
    {
        match self {
            BindErrorKind::UnknownParameter => "UnknownParameter",
            BindErrorKind::DuplicateParameter => "DuplicateParameter",
            BindErrorKind::MissingParameter => "MissingParameter",
            BindErrorKind::ParameterAlreadyConsumed => "ParameterAlreadyConsumed",
            BindErrorKind::ParameterTypeMismatch => "ParameterTypeMismatch",
            BindErrorKind::ParameterOutOfRange => "ParameterOutOfRange",
            BindErrorKind::InvalidBounds => "InvalidBounds",
            BindErrorKind::InvalidPattern => "InvalidPattern",
            BindErrorKind::MissingRule => "MissingRule",
            BindErrorKind::UnsupportedInput => "UnsupportedInput",
            BindErrorKind::MissingDependencyDeclaration => "MissingDependencyDeclaration",
            BindErrorKind::UnknownDependencyDeclaration => "UnknownDependencyDeclaration",
            BindErrorKind::DependencyOrderMismatch => "DependencyOrderMismatch",
            BindErrorKind::PreparedSignatureMismatch => "PreparedSignatureMismatch",
            BindErrorKind::DependencyOptionalityMismatch => "DependencyOptionalityMismatch",
            BindErrorKind::DependencyTypeMismatch => "DependencyTypeMismatch",
            BindErrorKind::UnreadablePath => "UnreadablePath",
            BindErrorKind::AmbiguousSignature => "AmbiguousSignature",
            BindErrorKind::UnsupportedConstraint => "UnsupportedConstraint",
            BindErrorKind::MissingFeature => "MissingFeature",
            BindErrorKind::InvalidDeclaration => "InvalidDeclaration",
            BindErrorKind::InvalidSelection => "InvalidSelection",
        }
    }
}

} // verus!

//! Input and dependency signatures for validator definitions.

use vstd::prelude::*;
use vstd::string::StringExecFns;

use crate::internal::text::decimal;
use crate::internal::text::push_decimal;
use crate::DependencySpec;
use crate::InputType;
use crate::BindError;
use crate::NamedValidationArgument;
use crate::PrepareFn;
use crate::PreparedValidator;

verus! {

/// One statically declared way to bind a validator.
#[derive(Clone, Copy)]
pub struct ValidatorSignature {
    /// Erased input shape accepted by this signature.
    input: InputType,
    /// Ordered dependency slots required by the prepared validator.
    dependencies: &'static [DependencySpec],
    /// Factory which decodes parameters and creates the prepared validator.
    prepare: &'static dyn PrepareFn,
}

impl ValidatorSignature {
    /// The accepted value shape.
    pub closed spec fn spec_input(self) -> InputType {
        self.input
    }

    /// The dependency declarations in slot order.
    pub closed spec fn spec_dependencies(self) -> &'static [DependencySpec] {
        self.dependencies
    }

    /// Whether `result` is what this signature's preparation can give for
    /// `params`.
    pub closed spec fn spec_prepares(self, params: &[NamedValidationArgument], result: Result<Box<dyn PreparedValidator>, BindError>) -> bool {
        self.prepare.spec_prepares(params, result)
    }

    /// Creates a signature with ordered dependency slots.
    pub fn new(input: InputType, dependencies: &'static [DependencySpec], prepare: &'static dyn PrepareFn) -> (r: Self)
        ensures
            r.spec_input() == input,
            r.spec_dependencies() == dependencies,
    {
        ValidatorSignature { input, dependencies, prepare }
    }

    /// Returns the accepted value shape.
    pub fn input(self) -> (r: InputType)
        ensures
            r == self.spec_input(),
    {
        self.input
    }

    /// Returns dependency declarations in slot order.
    pub fn dependencies(self) -> (r: &'static [DependencySpec])
        ensures
            r == self.spec_dependencies(),
    {
        self.dependencies
    }

    /// Returns the parameter binding function.
    pub fn prepare(self) -> &'static dyn PrepareFn {
        self.prepare
    }

    /// Runs this signature's preparation with `params`.
    ///
    /// # Errors
    ///
    /// Returns the preparation's binding error.
    pub fn run_prepare(self, params: &[NamedValidationArgument<'_>]) -> (r: Result<Box<dyn PreparedValidator>, BindError>)
        ensures
            self.spec_prepares(params, r),
    {
        self.prepare.prepare(params)
    }

    /// Describes the signature without invoking its factory: the input shape
    /// and the number of dependency slots.
    pub fn redacted(self) -> (r: String)
        ensures
            exists|input: Seq<char>| r@ == "ValidatorSignature { input: "@ + input + ", dependency_count: "@
                + decimal(self.spec_dependencies()@.len()) + " }"@
                && (self.spec_input() is Text ==> input == "Text"@),
    {
        let mut text = String::from_str("ValidatorSignature { input: ");
        let input = self.input.to_debug_string();
        let ghost input_text = input@;
        text.append(input.as_str());
        text.append(", dependency_count: ");
        push_decimal(&mut text, self.dependencies.len());
        text.append(" }");
        assert(text@ == "ValidatorSignature { input: "@ + input_text + ", dependency_count: "@
            + decimal(self.spec_dependencies()@.len()) + " }"@);
        text
    }
}

} // verus!

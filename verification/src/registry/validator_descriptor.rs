//! Immutable multi-signature validator descriptors.

use vstd::prelude::*;

use crate::internal::text::count_text;
use crate::internal::text::describe_count;
use crate::internal::text::str_eq;
use crate::BindError;
use crate::BindErrorKind;
use crate::BoundValidationContext;
use crate::ExecutionError;
use crate::PreparedOutcome;
use crate::ValidationValue;
use crate::BoundValidator;
use crate::DependencySpec;
use crate::InputType;
use crate::NamedValidationArgument;
use crate::PreparedValidator;
use crate::ValidatorId;
use crate::ValidatorSignature;

verus! {

/// Whether a signature before position `i` accepts the same input shape as
/// the signature at `i`.
pub open spec fn input_declared_before(signatures: Seq<ValidatorSignature>, i: int) -> bool {
    exists|j: int| #![auto] 0 <= j < i && signatures[j].spec_input() == signatures[i].spec_input()
}

/// Whether some dependency slot has an empty name.
pub open spec fn has_unnamed_dependency(dependencies: Seq<DependencySpec>) -> bool {
    exists|k: int| #![auto] 0 <= k < dependencies.len() && dependencies[k].spec_name()@.len() == 0
}

/// Whether a slot before position `k` has the same name as the slot at `k`.
pub open spec fn name_declared_before(dependencies: Seq<DependencySpec>, k: int) -> bool {
    exists|m: int| #![auto] 0 <= m < k && dependencies[m].spec_name()@ == dependencies[k].spec_name()@
}

/// The first slot, at position `k` or later, whose name repeats an earlier
/// slot's name.
pub open spec fn repeated_dependency_from(dependencies: Seq<DependencySpec>, k: int) -> Option<int>
    decreases dependencies.len() - k,
{
    if 0 <= k < dependencies.len() {
        if name_declared_before(dependencies, k) {
            Some(k)
        } else {
            repeated_dependency_from(dependencies, k + 1)
        }
    } else {
        None
    }
}

/// What is wrong with a list of dependency slots, as an error kind and the
/// offending dependency name: an empty name first, then the first repeated
/// name.
pub open spec fn dependency_error(dependencies: Seq<DependencySpec>) -> Option<(BindErrorKind, Option<Seq<char>>)> {
    if has_unnamed_dependency(dependencies) {
        Some((BindErrorKind::InvalidDeclaration, None))
    } else {
        match repeated_dependency_from(dependencies, 0) {
            Some(k) => Some((BindErrorKind::InvalidDeclaration, Some(dependencies[k].spec_name()@))),
            None => None,
        }
    }
}

/// What is wrong with the signature at position `i`: an input shape that an
/// earlier signature already accepts, then its dependency slots.
pub open spec fn signature_error(signatures: Seq<ValidatorSignature>, i: int) -> Option<(BindErrorKind, Option<Seq<char>>)> {
    if input_declared_before(signatures, i) {
        Some((BindErrorKind::AmbiguousSignature, None))
    } else {
        dependency_error(signatures[i].spec_dependencies()@)
    }
}

/// The error of the first faulty signature at position `i` or later.
pub open spec fn first_signature_error(signatures: Seq<ValidatorSignature>, i: int) -> Option<(BindErrorKind, Option<Seq<char>>)>
    decreases signatures.len() - i,
{
    if 0 <= i < signatures.len() {
        match signature_error(signatures, i) {
            Some(error) => Some(error),
            None => first_signature_error(signatures, i + 1),
        }
    } else {
        None
    }
}

/// What is wrong with a descriptor's signature list, if anything: it is
/// empty, or the first faulty signature's error.
pub open spec fn definition_error(signatures: Seq<ValidatorSignature>) -> Option<(BindErrorKind, Option<Seq<char>>)> {
    if signatures.len() == 0 {
        Some((BindErrorKind::InvalidDeclaration, None))
    } else {
        first_signature_error(signatures, 0)
    }
}

/// The view of the binding error reporting a declaration error.
pub open spec fn declaration_error_view(error: (BindErrorKind, Option<Seq<char>>)) -> (BindErrorKind, Option<ValidatorId>, Option<Seq<char>>, Option<Seq<char>>) {
    (error.0, None, None, error.1)
}

/// The first signature, at position `i` or later, that accepts `input`.
pub open spec fn signature_for_from(signatures: Seq<ValidatorSignature>, input: InputType, i: int) -> Option<int>
    decreases signatures.len() - i,
{
    if 0 <= i < signatures.len() {
        if signatures[i].spec_input() == input {
            Some(i)
        } else {
            signature_for_from(signatures, input, i + 1)
        }
    } else {
        None
    }
}

/// The first signature that accepts `input`.
pub open spec fn signature_for(signatures: Seq<ValidatorSignature>, input: InputType) -> Option<int> {
    signature_for_from(signatures, input, 0)
}

/// Whether `bound` has the input shape and dependency slots of `signature`
/// and the identity `rule_id`; [`binds_with`] adds the prepared validator it
/// runs.
pub open spec fn binds(bound: BoundValidator, signature: ValidatorSignature, rule_id: ValidatorId) -> bool {
    &&& bound.spec_input() == signature.spec_input()
    &&& bound.spec_dependencies() == signature.spec_dependencies()
    &&& bound.spec_rule_id() == rule_id
}

/// No signature at position `i` or later is faulty when the search from
/// `i` finds no error.
proof fn lemma_no_signature_error_from(signatures: Seq<ValidatorSignature>, i: int)
    requires
        0 <= i,
        first_signature_error(signatures, i) is None,
    ensures
        forall|j: int| i <= j < signatures.len() ==> #[trigger] signature_error(signatures, j) is None,
    decreases signatures.len() - i,
{
    if i < signatures.len() {
        lemma_no_signature_error_from(signatures, i + 1);
    }
}

/// With no repeated name found from slot `k` on, no slot from `k` on repeats
/// an earlier slot's name.
proof fn lemma_no_repeat_from(dependencies: Seq<DependencySpec>, k: int)
    requires
        0 <= k,
        repeated_dependency_from(dependencies, k) is None,
    ensures
        forall|m: int| k <= m < dependencies.len() ==> !#[trigger] name_declared_before(dependencies, m),
    decreases dependencies.len() - k,
{
    if k < dependencies.len() {
        lemma_no_repeat_from(dependencies, k + 1);
    }
}

/// Dependency slots with an empty name are a declaration error: a list of
/// slots in which some name is the empty string is rejected as an invalid
/// declaration, before any repeated name is looked for.
pub proof fn lemma_unnamed_dependency_rejected(dependencies: Seq<DependencySpec>, k: int)
    requires
        0 <= k < dependencies.len(),
        dependencies[k].spec_name()@.len() == 0,
    ensures
        dependency_error(dependencies) == Some((BindErrorKind::InvalidDeclaration, None::<Seq<char>>)),
{
    assert(has_unnamed_dependency(dependencies));
}

/// A well-formed descriptor has at least one signature, and in each of its
/// signatures every dependency slot has a non-empty name that no other slot
/// of that signature repeats. So a descriptor with an unnamed or a repeated
/// dependency slot is refused, whatever its other signatures are.
pub proof fn lemma_declared_dependencies_named(signatures: Seq<ValidatorSignature>, i: int, k: int)
    requires
        definition_error(signatures) is None,
        0 <= i < signatures.len(),
        0 <= k < signatures[i].spec_dependencies()@.len(),
    ensures
        signatures.len() > 0,
        signatures[i].spec_dependencies()@[k].spec_name()@.len() > 0,
        forall|m: int| 0 <= m < signatures[i].spec_dependencies()@.len() && m != k
            ==> signatures[i].spec_dependencies()@[k].spec_name()@ != #[trigger] signatures[i].spec_dependencies()@[m].spec_name()@,
{
    let deps = signatures[i].spec_dependencies()@;
    lemma_no_signature_error_from(signatures, 0);
    assert(signature_error(signatures, i) is None);
    assert(dependency_error(deps) is None);
    if deps[k].spec_name()@.len() == 0 {
        assert(has_unnamed_dependency(deps));
    }
    lemma_no_repeat_from(deps, 0);
    assert forall|m: int| 0 <= m < deps.len() && m != k implies deps[k].spec_name()@ != #[trigger] deps[m].spec_name()@ by {
        if k < m {
            assert(!name_declared_before(deps, m));
        } else {
            assert(!name_declared_before(deps, k));
        }
    }
}

/// The search from `i` finds the first signature accepting `input`.
proof fn lemma_signature_for_finds(signatures: Seq<ValidatorSignature>, input: InputType, i: int, k: int)
    requires
        0 <= i <= k < signatures.len(),
        signatures[k].spec_input() == input,
        forall|j: int| i <= j < k ==> (#[trigger] signatures[j]).spec_input() != input,
    ensures
        signature_for_from(signatures, input, i) == Some(k),
    decreases k - i,
{
    if i < k {
        lemma_signature_for_finds(signatures, input, i + 1, k);
    }
}

/// In a well-formed descriptor each signature is the one selected for its
/// own input shape: no other signature accepts the same shape.
pub proof fn lemma_selected_signature_unique(signatures: Seq<ValidatorSignature>, i: int)
    requires
        definition_error(signatures) is None,
        0 <= i < signatures.len(),
    ensures
        signature_for(signatures, signatures[i].spec_input()) == Some(i),
{
    lemma_no_signature_error_from(signatures, 0);
    assert(signature_error(signatures, i) is None);
    assert forall|j: int| 0 <= j < i implies (#[trigger] signatures[j]).spec_input() != signatures[i].spec_input() by {
        if signatures[j].spec_input() == signatures[i].spec_input() {
            assert(input_declared_before(signatures, i));
        }
    }
    lemma_signature_for_finds(signatures, signatures[i].spec_input(), 0, i);
}

/// `result` is what binding `signature` under `rule_id` with `params`
/// gives: the signature's preparation is given `params`; a prepared
/// validator becomes the occurrence that runs it, and a preparation error is
/// returned unchanged.
pub open spec fn binds_with(signature: ValidatorSignature, rule_id: ValidatorId, params: &[NamedValidationArgument], result: Result<BoundValidator, BindError>) -> bool {
    exists|prepared: Result<Box<dyn PreparedValidator>, BindError>| {
        &&& signature.spec_prepares(params, prepared)
        &&& match prepared {
            Ok(validator) => result matches Ok(bound) && binds(bound, signature, rule_id)
                && forall|value: ValidationValue, context: BoundValidationContext, outcome: Result<PreparedOutcome, ExecutionError>|
                    #[trigger] bound.spec_runs(value, context, outcome) == (*validator).spec_validates(value, context, outcome),
            Err(error) => result matches Err(e) && e == error,
        }
    }
}

/// As [`binds_with`], except that a preparation error is returned with
/// `rule_id` attached.
pub open spec fn binds_with_rule(signature: ValidatorSignature, rule_id: ValidatorId, params: &[NamedValidationArgument], result: Result<BoundValidator, BindError>) -> bool {
    exists|prepared: Result<Box<dyn PreparedValidator>, BindError>| {
        &&& signature.spec_prepares(params, prepared)
        &&& match prepared {
            Ok(validator) => result matches Ok(bound) && binds(bound, signature, rule_id)
                && forall|value: ValidationValue, context: BoundValidationContext, outcome: Result<PreparedOutcome, ExecutionError>|
                    #[trigger] bound.spec_runs(value, context, outcome) == (*validator).spec_validates(value, context, outcome),
            Err(error) => result matches Err(e) && e@ == (error@.0, Some(rule_id), error@.2, error@.3),
        }
    }
}

/// A definition containing one or more input/dependency signatures.
#[derive(Clone, Copy)]
pub struct ValidatorDescriptor {
    /// Supported signatures in declaration order.
    signatures: &'static [ValidatorSignature],
}

impl ValidatorDescriptor {
    /// The supported signatures in declaration order.
    pub closed spec fn spec_signatures(self) -> Seq<ValidatorSignature> {
        self.signatures@
    }

    /// Creates a descriptor from static signatures.
    ///
    /// Malformed signature lists are rejected when binding. Use
    /// [`Self::try_new`] when construction-time validation is desired.
    pub fn new(signatures: &'static [ValidatorSignature]) -> (r: Self)
        ensures
            r.spec_signatures() == signatures@,
    {
        ValidatorDescriptor { signatures }
    }

    /// Creates a descriptor and checks its signatures.
    ///
    /// # Errors
    ///
    /// Returns `InvalidDeclaration` when there are no signatures or a
    /// dependency name is empty or repeated. Returns `AmbiguousSignature` when
    /// two signatures accept the same input shape.
    pub fn try_new(signatures: &'static [ValidatorSignature]) -> (r: Result<Self, BindError>)
        ensures
            match definition_error(signatures@) {
                None => r matches Ok(descriptor) && descriptor.spec_signatures() == signatures@,
                Some(error) => r matches Err(e) && e@ == declaration_error_view(error),
            },
    {
        let descriptor = Self::new(signatures);
        match descriptor.validate_definition() {
            Ok(()) => Ok(descriptor),
            Err(error) => Err(error),
        }
    }

    /// Returns every supported signature in declaration order.
    pub fn signatures(&self) -> (r: &'static [ValidatorSignature])
        ensures
            r@ == self.spec_signatures(),
    {
        self.signatures
    }

    /// Describes the descriptor by its signature count only.
    pub fn redacted(&self) -> (r: String)
        ensures
            r@ == count_text("ValidatorDescriptor"@, "signature_count"@, self.spec_signatures().len(), false),
    {
        describe_count("ValidatorDescriptor", "signature_count", self.signatures.len(), false)
    }

    /// Binds one explicitly selected signature and owns its prepared instance.
    ///
    /// # Errors
    ///
    /// Returns the declaration error of a malformed descriptor,
    /// `InvalidSelection` for an index past the last signature, or the error
    /// of the selected signature's preparation.
    pub fn bind(&self, rule_id: ValidatorId, signature_index: usize, params: &[NamedValidationArgument<'_>]) -> (r: Result<BoundValidator, BindError>)
        ensures
            match definition_error(self.spec_signatures()) {
                Some(error) => r matches Err(e) && e@ == declaration_error_view(error),
                None => if signature_index < self.spec_signatures().len() {
                    binds_with(self.spec_signatures()[signature_index as int], rule_id, params, r)
                } else {
                    r matches Err(e) && e@ == (BindErrorKind::InvalidSelection, None::<ValidatorId>, None::<Seq<char>>, None::<Seq<char>>)
                },
            },
    {
        if let Err(error) = self.validate_definition() {
            return Err(error);
        }
        if signature_index >= self.signatures.len() {
            return Err(BindError::new(BindErrorKind::InvalidSelection));
        }
        let signature = self.signatures[signature_index];
        let prepared = signature.run_prepare(params);
        let ghost prepared_result = prepared;
        let result = signature.bind_prepared(rule_id, prepared);
        assert(binds_with(signature, rule_id, params, result));
        result
    }

    /// Selects and binds the unique signature matching an input shape.
    ///
    /// # Errors
    ///
    /// Returns the declaration error of a malformed descriptor,
    /// `UnsupportedInput` when no signature accepts `input`, or the error of
    /// the selected signature's preparation.
    pub fn bind_for(&self, rule_id: ValidatorId, input: InputType, params: &[NamedValidationArgument<'_>]) -> (r: Result<BoundValidator, BindError>)
        ensures
            match definition_error(self.spec_signatures()) {
                Some(error) => r matches Err(e) && e@ == declaration_error_view(error),
                None => match signature_for(self.spec_signatures(), input) {
                    None => r matches Err(e) && e@ == (BindErrorKind::UnsupportedInput, None::<ValidatorId>, None::<Seq<char>>, None::<Seq<char>>),
                    Some(i) => binds_with(self.spec_signatures()[i], rule_id, params, r),
                },
            },
    {
        if let Err(error) = self.validate_definition() {
            return Err(error);
        }
        self.bind_for_validated(rule_id, input, params)
    }

    /// Binds the first signature accepting `input`, for a descriptor that a
    /// containing registry validated while freezing its registrations.
    ///
    /// # Errors
    ///
    /// Returns `UnsupportedInput` when no signature accepts `input`, or the
    /// error of the selected signature's preparation.
    pub(crate) fn bind_for_validated(&self, rule_id: ValidatorId, input: InputType, params: &[NamedValidationArgument<'_>]) -> (r: Result<BoundValidator, BindError>)
        ensures
            match signature_for(self.spec_signatures(), input) {
                None => r matches Err(e) && e@ == (BindErrorKind::UnsupportedInput, None::<ValidatorId>, None::<Seq<char>>, None::<Seq<char>>),
                Some(i) => binds_with(self.spec_signatures()[i], rule_id, params, r),
            },
    {
        let signatures = self.signatures;
        let mut index: usize = 0;
        while index < signatures.len()
            invariant
                index <= signatures@.len(),
                signatures@ == self.spec_signatures(),
                signature_for(signatures@, input) == signature_for_from(signatures@, input, index as int),
            decreases signatures@.len() - index,
        {
            let signature = signatures[index];
            if signature.input().same(input) {
                let prepared = signature.run_prepare(params);
                let ghost prepared_result = prepared;
                let result = signature.bind_prepared(rule_id, prepared);
                assert(binds_with(signature, rule_id, params, result));
                return result;
            }
            index += 1;
        }
        Err(BindError::new(BindErrorKind::UnsupportedInput))
    }

    /// Whether a signature before `index` accepts the input shape of the
    /// signature at `index`.
    fn input_declared_earlier(signatures: &[ValidatorSignature], index: usize) -> (r: bool)
        requires
            index < signatures@.len(),
        ensures
            r == input_declared_before(signatures@, index as int),
    {
        let input = signatures[index].input();
        let mut earlier: usize = 0;
        while earlier < index
            invariant
                index < signatures@.len(),
                earlier <= index,
                input == signatures@[index as int].spec_input(),
                forall|j: int| #![auto] 0 <= j < earlier ==> signatures@[j].spec_input() != input,
            decreases index - earlier,
        {
            if signatures[earlier].input().same(input) {
                return true;
            }
            earlier += 1;
        }
        false
    }

    /// Checks that every dependency slot has a name and that no name repeats.
    fn check_dependencies(dependencies: &[DependencySpec]) -> (r: Result<(), BindError>)
        ensures
            match dependency_error(dependencies@) {
                None => r is Ok,
                Some(error) => r matches Err(e) && e@ == declaration_error_view(error),
            },
    {
        let mut index: usize = 0;
        while index < dependencies.len()
            invariant
                index <= dependencies@.len(),
                forall|k: int| #![auto] 0 <= k < index ==> dependencies@[k].spec_name()@.len() != 0,
            decreases dependencies@.len() - index,
        {
            if dependencies[index].name().is_empty() {
                return Err(BindError::new(BindErrorKind::InvalidDeclaration));
            }
            index += 1;
        }
        let mut index: usize = 0;
        while index < dependencies.len()
            invariant
                index <= dependencies@.len(),
                !has_unnamed_dependency(dependencies@),
                repeated_dependency_from(dependencies@, 0) == repeated_dependency_from(dependencies@, index as int),
            decreases dependencies@.len() - index,
        {
            let name = dependencies[index].name();
            let mut previous: usize = 0;
            while previous < index
                invariant
                    index < dependencies@.len(),
                    previous <= index,
                    name == dependencies@[index as int].spec_name(),
                    !has_unnamed_dependency(dependencies@),
                    repeated_dependency_from(dependencies@, 0) == repeated_dependency_from(dependencies@, index as int),
                    forall|m: int| #![auto] 0 <= m < previous ==> dependencies@[m].spec_name()@ != name@,
                decreases index - previous,
            {
                if str_eq(dependencies[previous].name(), name) {
                    assert(dependencies@[previous as int].spec_name()@ == dependencies@[index as int].spec_name()@);
                    assert(name_declared_before(dependencies@, index as int));
                    return Err(BindError::new(BindErrorKind::InvalidDeclaration).with_dependency(name));
                }
                previous += 1;
            }
            index += 1;
        }
        Ok(())
    }

    /// Checks that the descriptor is non-empty and unambiguous.
    ///
    /// # Errors
    ///
    /// Returns a declaration error for empty signatures, duplicate input
    /// shapes, or duplicate or empty dependency names.
    pub(crate) fn validate_definition(&self) -> (r: Result<(), BindError>)
        ensures
            match definition_error(self.spec_signatures()) {
                None => r is Ok,
                Some(error) => r matches Err(e) && e@ == declaration_error_view(error),
            },
    {
        let signatures = self.signatures;
        if signatures.len() == 0 {
            return Err(BindError::new(BindErrorKind::InvalidDeclaration));
        }
        let mut index: usize = 0;
        while index < signatures.len()
            invariant
                index <= signatures@.len(),
                signatures@ == self.spec_signatures(),
                signatures@.len() > 0,
                first_signature_error(signatures@, 0) == first_signature_error(signatures@, index as int),
            decreases signatures@.len() - index,
        {
            if Self::input_declared_earlier(signatures, index) {
                return Err(BindError::new(BindErrorKind::AmbiguousSignature));
            }
            if let Err(error) = Self::check_dependencies(signatures[index].dependencies()) {
                return Err(error);
            }
            index += 1;
        }
        Ok(())
    }
}

impl ValidatorSignature {
    /// Turns what this signature's preparation returned into a bound
    /// occurrence under `rule_id`: a prepared validator becomes the
    /// occurrence, a preparation error is returned unchanged.
    ///
    /// # Errors
    ///
    /// Returns the preparation error.
    pub fn bind_prepared(self, rule_id: ValidatorId, prepared: Result<Box<dyn PreparedValidator>, BindError>) -> (r: Result<BoundValidator, BindError>)
        ensures
            match prepared {
                Ok(validator) => r matches Ok(bound) && binds(bound, self, rule_id)
                    && forall|value: ValidationValue, context: BoundValidationContext, outcome: Result<PreparedOutcome, ExecutionError>|
                        #[trigger] bound.spec_runs(value, context, outcome) == (*validator).spec_validates(value, context, outcome),
                Err(error) => r matches Err(e) && e == error,
            },
    {
        BoundValidator::from_preparation(prepared, self, rule_id)
    }
}

} // verus!

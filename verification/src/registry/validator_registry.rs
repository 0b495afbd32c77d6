//! Immutable local registries for multi-signature validator definitions.

use vstd::prelude::*;
use vstd::string::StringSliceAdditionalSpecFns;

use super::arranged;
use super::binds;
use super::binds_with;
use super::binds_with_rule;
use super::declared_twice;
use super::definition_error;
use super::descriptor_invalid;
use super::descriptors_valid;
use super::first_invalid_registration;
use super::has_duplicate_id;
use super::has_invalid_descriptor;
use super::id_bytes;
use super::ids_increasing;
use super::least_duplicate_id;
use super::registry_order::lemma_arranged_insert;
use super::registry_order::lemma_declared_at_most_once;
use super::registry_order::lemma_increasing_distinct;
use super::registry_order::lemma_increasing_prefix;
use super::registry_order::lemma_sources_block;
use super::registry_order::lemma_sources_insert;
use super::registration_lt;
use super::signature_for;
use super::source_lt;
use super::sources_ordered;
use super::sources_with_id;
use super::RegistrationSource;
use super::ValidatorRegistration;
use crate::internal::text::bytes_lt;
use crate::internal::text::compare_bytes;
use crate::internal::text::lemma_bytes_lt_asymmetric;
use crate::internal::text::lemma_bytes_lt_total;
use crate::internal::text::lemma_bytes_lt_transitive;
use crate::internal::text::lemma_str_eq_bytes;
use crate::internal::text::TextOrder;
use crate::BindError;
use crate::BindErrorKind;
use crate::BoundValidationContext;
use crate::BoundValidator;
use crate::ExecutionError;
use crate::PreparedOutcome;
use crate::PreparedValidator;
use crate::ValidationValue;
use crate::InputType;
use crate::NamedValidationArgument;
use crate::ValidatorId;
use crate::ValidatorRegistryError;

verus! {

broadcast use {vstd::multiset::group_multiset_axioms, vstd::seq_lib::group_to_multiset_ensures};

/// Whether registration `a` sorts before registration `b`.
fn precedes(a: &ValidatorRegistration, b: &ValidatorRegistration) -> (r: bool)
    ensures
        r == registration_lt(*a, *b),
{
    match compare_bytes(a.id().as_str().as_bytes(), b.id().as_str().as_bytes()) {
        TextOrder::Less => true,
        TextOrder::Greater => false,
        TextOrder::Equal => a.source().compare(&b.source()) == TextOrder::Less,
    }
}

/// Whether two registrations declare the same identifier.
fn same_id(a: &ValidatorRegistration, b: &ValidatorRegistration) -> (r: bool)
    ensures
        r == (id_bytes(*a) == id_bytes(*b)),
{
    compare_bytes(a.id().as_str().as_bytes(), b.id().as_str().as_bytes()) == TextOrder::Equal
}

/// The facts an arrangement of the first registrations of `input` keeps.
spec fn arranges(sorted: Seq<ValidatorRegistration>, input: Seq<ValidatorRegistration>) -> bool {
    &&& sorted.to_multiset() == input.to_multiset()
    &&& arranged(sorted)
    &&& forall|id: Seq<u8>| #[trigger] sources_with_id(sorted, id).to_multiset() == sources_with_id(input, id).to_multiset()
}

/// Arranging one more registration keeps the arrangement facts.
proof fn lemma_arranges_step(sorted: Seq<ValidatorRegistration>, input: Seq<ValidatorRegistration>, pos: int, x: ValidatorRegistration)
    requires
        arranges(sorted, input),
        0 <= pos <= sorted.len(),
        forall|k: int| 0 <= k < pos ==> !registration_lt(x, #[trigger] sorted[k]),
        pos < sorted.len() ==> registration_lt(x, sorted[pos]),
    ensures
        arranges(sorted.insert(pos, x), input.push(x)),
{
    lemma_arranged_insert(sorted, pos, x);
    assert forall|id: Seq<u8>| #[trigger] sources_with_id(sorted.insert(pos, x), id).to_multiset() == sources_with_id(input.push(x), id).to_multiset() by {
        lemma_sources_insert(sorted, pos, x, id);
        assert(input.push(x).drop_last() =~= input);
    }
}

/// An arrangement declares each identifier as often as its input.
proof fn lemma_same_sources_count(sorted: Seq<ValidatorRegistration>, input: Seq<ValidatorRegistration>, id: Seq<u8>)
    requires
        arranges(sorted, input),
    ensures
        sources_with_id(sorted, id).len() == sources_with_id(input, id).len(),
{
    assert(sources_with_id(sorted, id).to_multiset() == sources_with_id(input, id).to_multiset());
    assert(sources_with_id(sorted, id).to_multiset().len() == sources_with_id(sorted, id).len());
    assert(sources_with_id(input, id).to_multiset().len() == sources_with_id(input, id).len());
}

/// Sorts registrations by identifier and source.
fn arrange(registrations: Vec<ValidatorRegistration>) -> (sorted: Vec<ValidatorRegistration>)
    ensures
        arranges(sorted@, registrations@),
{
    let mut sorted: Vec<ValidatorRegistration> = Vec::new();
    let mut index: usize = 0;
    assert(registrations@.take(0) =~= Seq::<ValidatorRegistration>::empty());
    while index < registrations.len()
        invariant
            index <= registrations@.len(),
            arranges(sorted@, registrations@.take(index as int)),
        decreases registrations@.len() - index,
    {
        let next = registrations[index];
        let mut pos: usize = 0;
        while pos < sorted.len() && !precedes(&next, &sorted[pos])
            invariant
                pos <= sorted@.len(),
                forall|k: int| 0 <= k < pos ==> !registration_lt(next, #[trigger] sorted@[k]),
            decreases sorted@.len() - pos,
        {
            pos += 1;
        }
        proof {
            lemma_arranges_step(sorted@, registrations@.take(index as int), pos as int, next);
            assert(registrations@.take(index as int).push(next) =~= registrations@.take(index + 1));
        }
        sorted.insert(pos, next);
        index += 1;
    }
    assert(registrations@.take(index as int) =~= registrations@);
    sorted
}

/// The first position whose registration declares the same identifier as
/// the next one.
fn first_repeated_id(sorted: &Vec<ValidatorRegistration>) -> (r: Option<usize>)
    ensures
        match r {
            Some(i) => i + 1 < sorted@.len() && id_bytes(sorted@[i as int]) == id_bytes(sorted@[i + 1])
                && forall|k: int| 0 <= k < i ==> id_bytes(#[trigger] sorted@[k]) != id_bytes(sorted@[k + 1]),
            None => forall|k: int| 0 <= k < sorted@.len() - 1 ==> id_bytes(#[trigger] sorted@[k]) != id_bytes(sorted@[k + 1]),
        },
{
    let mut index: usize = 0;
    while index < sorted.len() && index + 1 < sorted.len()
        invariant
            forall|k: int| 0 <= k < index ==> id_bytes(#[trigger] sorted@[k]) != id_bytes(sorted@[k + 1]),
        decreases sorted@.len() - index,
    {
        if same_id(&sorted[index], &sorted[index + 1]) {
            return Some(index);
        }
        index += 1;
    }
    None
}

/// The sources of the run of registrations starting at `start` that declare
/// the identifier of the registration at `start`, with the end of the run.
fn run_sources(sorted: &Vec<ValidatorRegistration>, start: usize) -> (r: (Vec<RegistrationSource>, usize))
    requires
        start < sorted@.len(),
    ensures
        start < r.1 <= sorted@.len(),
        r.1 < sorted@.len() ==> id_bytes(sorted@[r.1 as int]) != id_bytes(sorted@[start as int]),
        forall|k: int| start <= k < r.1 ==> id_bytes(#[trigger] sorted@[k]) == id_bytes(sorted@[start as int]),
        r.0@ == sorted@.subrange(start as int, r.1 as int).map_values(|reg: ValidatorRegistration| reg.spec_source()),
{
    let first = sorted[start];
    let mut sources: Vec<RegistrationSource> = Vec::new();
    let mut end: usize = start;
    while end < sorted.len() && same_id(&sorted[end], &first)
        invariant
            start <= end <= sorted@.len(),
            first == sorted@[start as int],
            end > start ==> id_bytes(sorted@[start as int]) == id_bytes(first),
            forall|k: int| start <= k < end ==> id_bytes(#[trigger] sorted@[k]) == id_bytes(first),
            sources@ == sorted@.subrange(start as int, end as int).map_values(|reg: ValidatorRegistration| reg.spec_source()),
        decreases sorted@.len() - end,
    {
        sources.push(sorted[end].source());
        end += 1;
        assert(sources@ =~= sorted@.subrange(start as int, end as int).map_values(|reg: ValidatorRegistration| reg.spec_source()));
    }
    (sources, end)
}

/// The first registration whose descriptor is malformed, with its error.
fn first_invalid(sorted: &Vec<ValidatorRegistration>) -> (r: Option<(usize, BindErrorKind)>)
    ensures
        match r {
            Some((j, kind)) => {
                &&& j < sorted@.len()
                &&& definition_error(sorted@[j as int].spec_descriptor().spec_signatures()) matches Some(e) && e.0 == kind
                &&& forall|l: int| 0 <= l < j ==> !descriptor_invalid(#[trigger] sorted@[l])
            },
            None => descriptors_valid(sorted@),
        },
{
    let mut index: usize = 0;
    while index < sorted.len()
        invariant
            index <= sorted@.len(),
            forall|l: int| 0 <= l < index ==> !descriptor_invalid(#[trigger] sorted@[l]),
        decreases sorted@.len() - index,
    {
        if let Err(error) = sorted[index].descriptor().validate_definition() {
            return Some((index, error.kind()));
        }
        index += 1;
    }
    None
}

/// A deterministic local registry containing one definition per stable ID.
pub struct ValidatorRegistry {
    /// Registrations sorted by stable identifier.
    registrations: Vec<ValidatorRegistration>,
}

impl ValidatorRegistry {
    #[verifier::type_invariant]
    spec fn well_formed(self) -> bool {
        &&& ids_increasing(self.registrations@)
        &&& descriptors_valid(self.registrations@)
    }

    /// The registrations, sorted by stable identifier.
    pub closed spec fn spec_registrations(self) -> Seq<ValidatorRegistration> {
        self.registrations@
    }

    /// Returns an empty registry.
    pub fn empty() -> (r: Self)
        ensures
            r.spec_registrations() == Seq::<ValidatorRegistration>::empty(),
    {
        ValidatorRegistry { registrations: Vec::new() }
    }

    /// Builds a registry by taking ownership of registration values.
    ///
    /// # Errors
    ///
    /// Returns every source which declared the smallest duplicated stable ID,
    /// or, when no ID is duplicated, the identifier, source and cause of the
    /// invalid descriptor with the smallest identifier.
    pub fn from_registrations(registrations: Vec<ValidatorRegistration>) -> (r: Result<Self, ValidatorRegistryError>)
        ensures
            has_duplicate_id(registrations@) == (r matches Err(ValidatorRegistryError::DuplicateId { .. })),
            r matches Err(ValidatorRegistryError::DuplicateId { id, sources }) ==> {
                &&& least_duplicate_id(registrations@, id.spec_bytes())
                &&& sources_ordered(sources@)
                &&& sources@.to_multiset() == sources_with_id(registrations@, id.spec_bytes()).to_multiset()
            },
            (!has_duplicate_id(registrations@) && has_invalid_descriptor(registrations@))
                == (r matches Err(ValidatorRegistryError::InvalidDescriptor { .. })),
            r matches Err(ValidatorRegistryError::InvalidDescriptor { id, registration_source, kind }) ==> exists|k: int| {
                &&& first_invalid_registration(registrations@, k)
                &&& #[trigger] registrations@[k].spec_id() == id
                &&& registrations@[k].spec_source() == registration_source
                &&& (definition_error(registrations@[k].spec_descriptor().spec_signatures()) matches Some(e) && e.0 == kind)
            },
            r matches Ok(registry) ==> {
                &&& registry.spec_registrations().to_multiset() == registrations@.to_multiset()
                &&& ids_increasing(registry.spec_registrations())
                &&& descriptors_valid(registry.spec_registrations())
            },
    {
        let sorted = arrange(registrations);
        let ghost input = registrations@;
        let ghost p = sorted@;
        if let Some(start) = first_repeated_id(&sorted) {
            let (sources, end) = run_sources(&sorted, start);
            let id = sorted[start].id().as_str();
            proof {
                let d = id_bytes(p[start as int]);
                lemma_increasing_prefix(p, start as int);
                // Outside the run no registration declares `d`.
                assert forall|k: int| 0 <= k < p.len() && !(start <= k < end) implies id_bytes(#[trigger] p[k]) != d by {
                    if k < start {
                        lemma_bytes_lt_asymmetric(id_bytes(p[k]), d);
                    } else {
                        assert(!registration_lt(p[end as int], p[start as int]));
                        lemma_bytes_lt_total(d, id_bytes(p[end as int]));
                        if k > end {
                            assert(!registration_lt(p[k], p[end as int]));
                        }
                    }
                }
                lemma_sources_block(p, start as int, end as int, d);
                assert(sources_with_id(p, d).len() == end - start);
                assert(id_bytes(p[start + 1]) == d);
                lemma_same_sources_count(p, input, d);
                assert(declared_twice(input, d));
                // Every smaller identifier is declared at most once.
                assert forall|other: Seq<u8>| #[trigger] declared_twice(input, other) implies !bytes_lt(other, d) by {
                    if bytes_lt(other, d) {
                        lemma_same_sources_count(p, input, other);
                        lemma_increasing_distinct(p, start as int + 1, other);
                        assert forall|k: int, l: int| 0 <= k < l < p.len() && id_bytes(#[trigger] p[k]) == other implies id_bytes(#[trigger] p[l]) != other by {
                            if l > start {
                                assert(!registration_lt(p[l], p[start as int]));
                                lemma_bytes_lt_asymmetric(other, d);
                            }
                        }
                        lemma_declared_at_most_once(p, other);
                    }
                }
                assert(sources_ordered(sources@)) by {
                    assert forall|i: int, j: int| 0 <= i < j < sources@.len() implies !source_lt(#[trigger] sources@[j], #[trigger] sources@[i]) by {
                        assert(!registration_lt(p[start + j], p[start + i]));
                    }
                }
                assert(has_duplicate_id(input));
            }
            return Err(ValidatorRegistryError::DuplicateId { id, sources });
        }
        proof {
            if p.len() > 0 {
                lemma_increasing_prefix(p, p.len() - 1);
            }
            assert(ids_increasing(p));
            assert forall|other: Seq<u8>| !#[trigger] declared_twice(input, other) by {
                lemma_same_sources_count(p, input, other);
                lemma_increasing_distinct(p, p.len() as int, other);
                lemma_declared_at_most_once(p, other);
            }
        }
        if let Some((j, kind)) = first_invalid(&sorted) {
            let registration = sorted[j];
            proof {
                assert(p.contains(p[j as int]));
                assert(input.to_multiset().count(p[j as int]) > 0);
                let k = choose|k: int| 0 <= k < input.len() && input[k] == p[j as int];
                assert forall|m: int| 0 <= m < input.len() && bytes_lt(id_bytes(#[trigger] input[m]), id_bytes(input[k])) implies !descriptor_invalid(input[m]) by {
                    assert(input.contains(input[m]));
                    assert(p.to_multiset().count(input[m]) > 0);
                    let l = choose|l: int| 0 <= l < p.len() && p[l] == input[m];
                    lemma_bytes_lt_asymmetric(id_bytes(input[m]), id_bytes(input[k]));
                    if l > j {
                        lemma_bytes_lt_asymmetric(id_bytes(p[j as int]), id_bytes(p[l]));
                    }
                }
                assert(first_invalid_registration(input, k));
                assert(input[k].spec_id() == registration.spec_id());
                assert(has_invalid_descriptor(input));
            }
            return Err(ValidatorRegistryError::InvalidDescriptor {
                id: registration.id(),
                registration_source: registration.source(),
                kind,
            });
        }
        proof {
            assert forall|k: int| 0 <= k < input.len() implies !descriptor_invalid(#[trigger] input[k]) by {
                assert(input.contains(input[k]));
                assert(p.to_multiset().count(input[k]) > 0);
                let l = choose|l: int| 0 <= l < p.len() && p[l] == input[k];
            }
        }
        Ok(ValidatorRegistry { registrations: sorted })
    }

    /// Finds a registration by stable ID.
    ///
    /// # Returns
    ///
    /// Returns `Some` for a registered ID and `None` when the ID is unknown.
    pub fn get(&self, id: &str) -> (r: Option<&ValidatorRegistration>)
        ensures
            match r {
                Some(registration) => self.spec_registrations().contains(*registration)
                    && registration.spec_id()@ == id@,
                None => forall|k: int| 0 <= k < self.spec_registrations().len()
                    ==> (#[trigger] self.spec_registrations()[k]).spec_id()@ != id@,
            },
    {
        proof {
            use_type_invariant(self);
        }
        let registrations = &self.registrations;
        let target = id.as_bytes();
        let mut low: usize = 0;
        let mut high: usize = registrations.len();
        while low < high
            invariant
                low <= high <= registrations@.len(),
                registrations@ == self.registrations@,
                ids_increasing(registrations@),
                target@ == id.spec_bytes(),
                forall|k: int| 0 <= k < low ==> bytes_lt(id_bytes(#[trigger] registrations@[k]), target@),
                forall|k: int| high <= k < registrations@.len() ==> bytes_lt(target@, id_bytes(#[trigger] registrations@[k])),
            decreases high - low,
        {
            let middle = low + (high - low) / 2;
            match compare_bytes(registrations[middle].id().as_str().as_bytes(), target) {
                TextOrder::Equal => {
                    proof {
                        lemma_str_eq_bytes(registrations@[middle as int].spec_id().text(), id);
                    }
                    return Some(&registrations[middle]);
                },
                TextOrder::Less => {
                    proof {
                        assert forall|k: int| 0 <= k < middle + 1 implies bytes_lt(id_bytes(#[trigger] registrations@[k]), target@) by {
                            if k < middle {
                                lemma_bytes_lt_transitive(id_bytes(registrations@[k]), id_bytes(registrations@[middle as int]), target@);
                            }
                        }
                    }
                    low = middle + 1;
                },
                TextOrder::Greater => {
                    proof {
                        assert forall|k: int| middle <= k < registrations@.len() implies bytes_lt(target@, id_bytes(#[trigger] registrations@[k])) by {
                            if k > middle {
                                lemma_bytes_lt_transitive(target@, id_bytes(registrations@[middle as int]), id_bytes(registrations@[k]));
                            }
                        }
                    }
                    high = middle;
                },
            }
        }
        proof {
            assert forall|k: int| 0 <= k < registrations@.len() implies (#[trigger] registrations@[k]).spec_id()@ != id@ by {
                lemma_bytes_lt_asymmetric(id_bytes(registrations@[k]), target@);
                lemma_bytes_lt_asymmetric(target@, id_bytes(registrations@[k]));
                lemma_str_eq_bytes(registrations@[k].spec_id().text(), id);
            }
        }
        None
    }

    /// Returns registrations sorted by stable ID.
    pub fn registrations(&self) -> (r: &[ValidatorRegistration])
        ensures
            r@ == self.spec_registrations(),
            ids_increasing(r@),
            descriptors_valid(r@),
    {
        proof {
            use_type_invariant(self);
        }
        self.registrations.as_slice()
    }

    /// Binds a rule by ID and input shape.
    ///
    /// # Errors
    ///
    /// Returns `MissingRule` for an unknown ID; otherwise the error of binding
    /// the registration's descriptor for `input`, which gains the rule ID.
    pub fn bind(&self, id: &str, input: InputType, params: &[NamedValidationArgument<'_>]) -> (r: Result<BoundValidator, BindError>)
        ensures
            (forall|k: int| 0 <= k < self.spec_registrations().len() ==> (#[trigger] self.spec_registrations()[k]).spec_id()@ != id@)
                ==> (r matches Err(e) && e@ == (BindErrorKind::MissingRule, None::<ValidatorId>, None::<Seq<char>>, None::<Seq<char>>)),
            forall|k: int| 0 <= k < self.spec_registrations().len() && (#[trigger] self.spec_registrations()[k]).spec_id()@ == id@
                ==> match signature_for(self.spec_registrations()[k].spec_descriptor().spec_signatures(), input) {
                    None => r matches Err(e) && e@ == (BindErrorKind::UnsupportedInput, Some(self.spec_registrations()[k].spec_id()), None::<Seq<char>>, None::<Seq<char>>),
                    Some(i) => binds_with_rule(self.spec_registrations()[k].spec_descriptor().spec_signatures()[i], self.spec_registrations()[k].spec_id(), params, r),
                },
    {
        proof {
            use_type_invariant(self);
        }
        let registration = match self.get(id) {
            Some(registration) => registration,
            None => return Err(BindError::new(BindErrorKind::MissingRule)),
        };
        proof {
            let j = choose|j: int| 0 <= j < self.registrations@.len() && self.registrations@[j] == *registration;
            assert(definition_error(self.registrations@[j].spec_descriptor().spec_signatures()) is None);
            assert forall|k: int| 0 <= k < self.registrations@.len() && (#[trigger] self.registrations@[k]).spec_id()@ == id@ implies k == j by {
                lemma_str_eq_bytes(self.registrations@[k].spec_id().text(), self.registrations@[j].spec_id().text());
                if k < j || j < k {
                    lemma_bytes_lt_asymmetric(id_bytes(self.registrations@[k]), id_bytes(self.registrations@[j]));
                }
            }
        }
        let bound = registration.descriptor().bind_for(registration.id(), input, params);
        let ghost bound_result = bound;
        let result = match bound {
            Ok(bound) => Ok(bound),
            Err(error) => Err(error.with_rule(registration.id())),
        };
        proof {
            let signatures = registration.spec_descriptor().spec_signatures();
            if let Some(i) = signature_for(signatures, input) {
                assert(binds_with(signatures[i], registration.spec_id(), params, bound_result));
                let prepared = choose|prepared: Result<Box<dyn PreparedValidator>, BindError>| {
                    &&& signatures[i].spec_prepares(params, prepared)
                    &&& match prepared {
                        Ok(validator) => bound_result matches Ok(b) && binds(b, signatures[i], registration.spec_id())
                            && forall|value: ValidationValue, context: BoundValidationContext, outcome: Result<PreparedOutcome, ExecutionError>|
                                #[trigger] b.spec_runs(value, context, outcome) == (*validator).spec_validates(value, context, outcome),
                        Err(error) => bound_result matches Err(e) && e == error,
                    }
                };
                assert(binds_with_rule(signatures[i], registration.spec_id(), params, result));
            }
        }
        result
    }
}

} // verus!

//! The order in which a registry arranges its registrations, and what an
//! arrangement tells about duplicated identifiers.

use vstd::prelude::*;
use vstd::string::StringSliceAdditionalSpecFns;

use super::definition_error;
use super::lemma_source_lt_asymmetric;
use super::lemma_source_lt_transitive;
use super::source_lt;
use super::RegistrationSource;
use super::ValidatorRegistration;
use crate::internal::text::bytes_lt;
use crate::internal::text::lemma_bytes_lt_asymmetric;
use crate::internal::text::lemma_bytes_lt_total;
use crate::internal::text::lemma_bytes_lt_transitive;

verus! {

broadcast use {vstd::multiset::group_multiset_axioms, vstd::seq_lib::group_to_multiset_ensures};

/// The identifier of a registration, as UTF-8 bytes.
pub open spec fn id_bytes(registration: ValidatorRegistration) -> Seq<u8> {
    registration.spec_id().text().spec_bytes()
}

/// The order of registrations: by identifier, then by source location.
pub open spec fn registration_lt(a: ValidatorRegistration, b: ValidatorRegistration) -> bool {
    bytes_lt(id_bytes(a), id_bytes(b)) || (id_bytes(a) == id_bytes(b) && source_lt(a.spec_source(), b.spec_source()))
}

/// No registration of `s` sorts before an earlier one.
pub open spec fn arranged(s: Seq<ValidatorRegistration>) -> bool {
    forall|i: int, j: int| 0 <= i < j < s.len() ==> !registration_lt(#[trigger] s[j], #[trigger] s[i])
}

/// The identifiers of `s` strictly increase.
pub open spec fn ids_increasing(s: Seq<ValidatorRegistration>) -> bool {
    forall|i: int, j: int| 0 <= i < j < s.len() ==> bytes_lt(id_bytes(#[trigger] s[i]), id_bytes(#[trigger] s[j]))
}

/// Every registration of `s` has a well-formed descriptor.
pub open spec fn descriptors_valid(s: Seq<ValidatorRegistration>) -> bool {
    forall|i: int| 0 <= i < s.len() ==> definition_error((#[trigger] s[i]).spec_descriptor().spec_signatures()) is None
}

/// Whether the registration's descriptor is malformed.
pub open spec fn descriptor_invalid(registration: ValidatorRegistration) -> bool {
    definition_error(registration.spec_descriptor().spec_signatures()) is Some
}

/// The sources of the registrations of `s` that declare `id`, in order.
pub open spec fn sources_with_id(s: Seq<ValidatorRegistration>, id: Seq<u8>) -> Seq<RegistrationSource>
    decreases s.len(),
{
    if s.len() == 0 {
        Seq::empty()
    } else if id_bytes(s.last()) == id {
        sources_with_id(s.drop_last(), id).push(s.last().spec_source())
    } else {
        sources_with_id(s.drop_last(), id)
    }
}

/// More than one registration of `s` declares `id`.
pub open spec fn declared_twice(s: Seq<ValidatorRegistration>, id: Seq<u8>) -> bool {
    sources_with_id(s, id).len() >= 2
}

/// Some identifier is declared by more than one registration of `s`.
pub open spec fn has_duplicate_id(s: Seq<ValidatorRegistration>) -> bool {
    exists|id: Seq<u8>| declared_twice(s, id)
}

/// `id` is the smallest identifier that `s` declares more than once.
pub open spec fn least_duplicate_id(s: Seq<ValidatorRegistration>, id: Seq<u8>) -> bool {
    &&& declared_twice(s, id)
    &&& forall|other: Seq<u8>| #[trigger] declared_twice(s, other) ==> !bytes_lt(other, id)
}

/// No source of `s` sorts before an earlier one.
pub open spec fn sources_ordered(s: Seq<RegistrationSource>) -> bool {
    forall|i: int, j: int| 0 <= i < j < s.len() ==> !source_lt(#[trigger] s[j], #[trigger] s[i])
}

/// Some registration of `s` has a malformed descriptor.
pub open spec fn has_invalid_descriptor(s: Seq<ValidatorRegistration>) -> bool {
    exists|k: int| 0 <= k < s.len() && descriptor_invalid(#[trigger] s[k])
}

/// The registration at `k` has a malformed descriptor, and every
/// registration of `s` with a smaller identifier has a well-formed one.
pub open spec fn first_invalid_registration(s: Seq<ValidatorRegistration>, k: int) -> bool {
    &&& 0 <= k < s.len()
    &&& descriptor_invalid(s[k])
    &&& forall|m: int| 0 <= m < s.len() && bytes_lt(id_bytes(#[trigger] s[m]), id_bytes(s[k])) ==> !descriptor_invalid(s[m])
}

/// The registration order is irreflexive and asymmetric.
pub proof fn lemma_registration_lt_asymmetric(a: ValidatorRegistration, b: ValidatorRegistration)
    ensures
        registration_lt(a, b) ==> !registration_lt(b, a),
        !registration_lt(a, a),
{
    lemma_bytes_lt_asymmetric(id_bytes(a), id_bytes(b));
    lemma_bytes_lt_asymmetric(id_bytes(a), id_bytes(a));
    lemma_source_lt_asymmetric(a.spec_source(), b.spec_source());
}

/// The registration order is transitive.
pub proof fn lemma_registration_lt_transitive(a: ValidatorRegistration, b: ValidatorRegistration, c: ValidatorRegistration)
    requires
        registration_lt(a, b),
        registration_lt(b, c),
    ensures
        registration_lt(a, c),
{
    if bytes_lt(id_bytes(a), id_bytes(b)) && bytes_lt(id_bytes(b), id_bytes(c)) {
        lemma_bytes_lt_transitive(id_bytes(a), id_bytes(b), id_bytes(c));
    }
    if id_bytes(a) == id_bytes(b) && id_bytes(b) == id_bytes(c) {
        lemma_source_lt_transitive(a.spec_source(), b.spec_source(), c.spec_source());
    }
}

/// Inserting `x` before the first registration that it sorts before keeps
/// an arrangement arranged.
pub proof fn lemma_arranged_insert(s: Seq<ValidatorRegistration>, pos: int, x: ValidatorRegistration)
    requires
        arranged(s),
        0 <= pos <= s.len(),
        forall|k: int| 0 <= k < pos ==> !registration_lt(x, #[trigger] s[k]),
        pos < s.len() ==> registration_lt(x, s[pos]),
    ensures
        arranged(s.insert(pos, x)),
{
    s.insert_ensures(pos, x);
    let t = s.insert(pos, x);
    assert forall|i: int, j: int| 0 <= i < j < t.len() implies !registration_lt(#[trigger] t[j], #[trigger] t[i]) by {
        if j < pos {
            assert(t[i] == s[i] && t[j] == s[j]);
        } else if j == pos {
            assert(t[i] == s[i]);
        } else if i == pos {
            assert(t[j] == s[j - 1]);
            if registration_lt(s[j - 1], x) {
                lemma_registration_lt_transitive(s[j - 1], x, s[pos]);
                lemma_registration_lt_asymmetric(s[j - 1], s[pos]);
            }
        } else if i < pos {
            assert(t[i] == s[i] && t[j] == s[j - 1]);
        } else {
            assert(t[i] == s[i - 1] && t[j] == s[j - 1]);
        }
    }
}

/// Inserting a registration adds its source to the sources of its
/// identifier and leaves the sources of every other identifier alone.
pub proof fn lemma_sources_insert(s: Seq<ValidatorRegistration>, pos: int, x: ValidatorRegistration, id: Seq<u8>)
    requires
        0 <= pos <= s.len(),
    ensures
        sources_with_id(s.insert(pos, x), id).to_multiset() == if id_bytes(x) == id {
            sources_with_id(s, id).to_multiset().insert(x.spec_source())
        } else {
            sources_with_id(s, id).to_multiset()
        },
    decreases s.len(),
{
    let t = s.insert(pos, x);
    if pos == s.len() {
        assert(t.drop_last() =~= s);
        assert(t.last() == x);
    } else {
        let d = s.drop_last();
        assert(t.drop_last() =~= d.insert(pos, x));
        assert(t.last() == s.last());
        lemma_sources_insert(d, pos, x, id);
        let base = sources_with_id(d, id).to_multiset();
        if id_bytes(x) == id && id_bytes(s.last()) == id {
            assert(base.insert(x.spec_source()).insert(s.last().spec_source())
                =~= base.insert(s.last().spec_source()).insert(x.spec_source()));
        }
    }
}

/// When the registrations declaring `id` are exactly those at positions
/// `a` up to `b`, their sources are those positions' sources.
pub proof fn lemma_sources_block(s: Seq<ValidatorRegistration>, a: int, b: int, id: Seq<u8>)
    requires
        0 <= a <= b <= s.len(),
        forall|k: int| a <= k < b ==> id_bytes(#[trigger] s[k]) == id,
        forall|k: int| 0 <= k < s.len() && !(a <= k < b) ==> id_bytes(#[trigger] s[k]) != id,
    ensures
        sources_with_id(s, id) == s.subrange(a, b).map_values(|r: ValidatorRegistration| r.spec_source()),
    decreases s.len(),
{
    let d = s.drop_last();
    if s.len() == 0 {
        assert(s.subrange(a, b).map_values(|r: ValidatorRegistration| r.spec_source()) =~= Seq::empty());
    } else if s.len() > b {
        lemma_sources_block(d, a, b, id);
        assert(s.subrange(a, b) =~= d.subrange(a, b));
    } else if b > a {
        lemma_sources_block(d, a, b - 1, id);
        assert(s.subrange(a, b).map_values(|r: ValidatorRegistration| r.spec_source())
            =~= d.subrange(a, b - 1).map_values(|r: ValidatorRegistration| r.spec_source()).push(s.last().spec_source()));
    } else {
        lemma_sources_block(d, a - 1, b - 1, id);
        assert(s.subrange(a, b).map_values(|r: ValidatorRegistration| r.spec_source()) =~= Seq::empty());
        assert(d.subrange(a - 1, b - 1).map_values(|r: ValidatorRegistration| r.spec_source()) =~= Seq::empty());
    }
}

/// An identifier that at most one registration declares is not declared
/// twice.
pub proof fn lemma_declared_at_most_once(s: Seq<ValidatorRegistration>, id: Seq<u8>)
    requires
        forall|k: int, l: int| 0 <= k < l < s.len() && id_bytes(#[trigger] s[k]) == id ==> id_bytes(#[trigger] s[l]) != id,
    ensures
        !declared_twice(s, id),
{
    if exists|k: int| 0 <= k < s.len() && id_bytes(#[trigger] s[k]) == id {
        let k = choose|k: int| 0 <= k < s.len() && id_bytes(#[trigger] s[k]) == id;
        assert forall|m: int| 0 <= m < s.len() && !(k <= m < k + 1) implies id_bytes(#[trigger] s[m]) != id by {
            if m < k {
                assert(id_bytes(s[m]) == id ==> id_bytes(s[k]) != id);
            }
        }
        lemma_sources_block(s, k, k + 1, id);
    } else {
        lemma_sources_block(s, 0, 0, id);
    }
}

/// In an arrangement whose first `i + 1` registrations have no two equal
/// neighbours, those registrations' identifiers strictly increase.
pub proof fn lemma_increasing_prefix(s: Seq<ValidatorRegistration>, i: int)
    requires
        arranged(s),
        0 <= i < s.len(),
        forall|k: int| 0 <= k < i ==> id_bytes(#[trigger] s[k]) != id_bytes(s[k + 1]),
    ensures
        forall|k: int, l: int| 0 <= k < l <= i ==> bytes_lt(id_bytes(#[trigger] s[k]), id_bytes(#[trigger] s[l])),
    decreases i,
{
    if i > 0 {
        lemma_increasing_prefix(s, i - 1);
        assert(!registration_lt(s[i], s[i - 1]));
        lemma_bytes_lt_total(id_bytes(s[i - 1]), id_bytes(s[i]));
        assert(bytes_lt(id_bytes(s[i - 1]), id_bytes(s[i])));
        assert forall|k: int, l: int| 0 <= k < l <= i implies bytes_lt(id_bytes(#[trigger] s[k]), id_bytes(#[trigger] s[l])) by {
            if l == i && k < i - 1 {
                lemma_bytes_lt_transitive(id_bytes(s[k]), id_bytes(s[i - 1]), id_bytes(s[i]));
            }
        }
    }
}

/// Strictly increasing identifiers are pairwise different.
pub proof fn lemma_increasing_distinct(s: Seq<ValidatorRegistration>, end: int, id: Seq<u8>)
    requires
        0 <= end <= s.len(),
        forall|k: int, l: int| 0 <= k < l < end ==> bytes_lt(id_bytes(#[trigger] s[k]), id_bytes(#[trigger] s[l])),
    ensures
        forall|k: int, l: int| 0 <= k < l < end && id_bytes(#[trigger] s[k]) == id ==> id_bytes(#[trigger] s[l]) != id,
{
    assert forall|k: int, l: int| 0 <= k < l < end && id_bytes(#[trigger] s[k]) == id implies id_bytes(#[trigger] s[l]) != id by {
        lemma_bytes_lt_asymmetric(id_bytes(s[k]), id_bytes(s[l]));
    }
}

/// Two sequences of registrations with strictly increasing identifiers and
/// the same registrations are the same sequence: a registry's order does not
/// depend on the order in which its registrations were supplied.
pub proof fn lemma_arrangement_unique(x: Seq<ValidatorRegistration>, y: Seq<ValidatorRegistration>)
    requires
        ids_increasing(x),
        ids_increasing(y),
        x.to_multiset() == y.to_multiset(),
    ensures
        x == y,
    decreases x.len(),
{
    if x.len() == 0 || y.len() == 0 {
        assert(x.to_multiset().len() == 0 && y.to_multiset().len() == 0);
        assert(x =~= y);
    } else {
        assert(x.to_multiset().contains(x[0]));
        assert(y.contains(x[0]));
        assert(y.contains(y[0]));
        assert(y.to_multiset().count(y[0]) > 0);
        assert(x.contains(y[0]));
        let i = choose|i: int| 0 <= i < y.len() && y[i] == x[0];
        let j = choose|j: int| 0 <= j < x.len() && x[j] == y[0];
        if i > 0 {
            assert(bytes_lt(id_bytes(y[0]), id_bytes(y[i])));
            if j > 0 {
                lemma_bytes_lt_asymmetric(id_bytes(x[0]), id_bytes(x[j]));
            } else {
                lemma_bytes_lt_asymmetric(id_bytes(y[0]), id_bytes(y[0]));
            }
        }
        assert(x[0] == y[0]);
        assert(x.drop_first().to_multiset() =~= x.to_multiset().remove(x[0])) by {
            assert(x =~= x.subrange(0, 1) + x.drop_first());
            vstd::seq_lib::to_multiset_remove(x, 0);
            assert(x.remove(0) =~= x.drop_first());
        }
        assert(y.drop_first().to_multiset() =~= y.to_multiset().remove(y[0])) by {
            vstd::seq_lib::to_multiset_remove(y, 0);
            assert(y.remove(0) =~= y.drop_first());
        }
        lemma_arrangement_unique(x.drop_first(), y.drop_first());
        assert(x =~= y) by {
            assert forall|k: int| 0 <= k < x.len() implies x[k] == y[k] by {
                if k > 0 {
                    assert(x[k] == x.drop_first()[k - 1]);
                    assert(y[k] == y.drop_first()[k - 1]);
                }
            }
        }
    }
}

/// In a registry holding exactly the registrations of `input`, the
/// registration found for the identifier of `input[k]` is `input[k]` itself.
pub proof fn lemma_registered_found(registry: Seq<ValidatorRegistration>, input: Seq<ValidatorRegistration>, k: int, found: ValidatorRegistration)
    requires
        ids_increasing(registry),
        registry.to_multiset() == input.to_multiset(),
        0 <= k < input.len(),
        registry.contains(found),
        found.spec_id()@ == input[k].spec_id()@,
    ensures
        found == input[k],
        registry.contains(input[k]),
{
    assert(input.contains(input[k]));
    assert(input.to_multiset().count(input[k]) > 0);
    assert(registry.contains(input[k]));
    let a = choose|a: int| 0 <= a < registry.len() && registry[a] == input[k];
    let b = choose|b: int| 0 <= b < registry.len() && registry[b] == found;
    crate::internal::text::lemma_str_eq_bytes(found.spec_id().text(), input[k].spec_id().text());
    if a < b {
        lemma_bytes_lt_asymmetric(id_bytes(registry[a]), id_bytes(registry[b]));
    } else if b < a {
        lemma_bytes_lt_asymmetric(id_bytes(registry[b]), id_bytes(registry[a]));
    }
}

} // verus!

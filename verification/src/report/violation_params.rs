//! Named violation parameters, kept sorted by name.

use vstd::prelude::*;
use vstd::string::StringSliceAdditionalSpecFns;

use super::ViolationParam;
use crate::internal::text::compare_str;
use crate::internal::text::lemma_bytes_lt_asymmetric;
use crate::internal::text::lemma_bytes_lt_transitive;
use crate::internal::text::lemma_str_eq_bytes;
use crate::internal::text::str_lt;
use crate::internal::text::TextOrder;

verus! {

/// Entries strictly increasing by name, in the byte order of `str`.
pub open spec fn sorted_by_name(entries: Seq<(&'static str, ViolationParam)>) -> bool {
    forall|i: int, j: int|
        0 <= i < j < entries.len() ==> #[trigger] str_lt(entries[i].0, entries[j].0) && #[trigger] entries[j].0 == entries[j].0
}

/// Some entry is named `name`.
pub open spec fn has_name(entries: Seq<(&'static str, ViolationParam)>, name: Seq<char>) -> bool {
    exists|i: int| 0 <= i < entries.len() && #[trigger] entries[i].0@ == name
}

/// The entries as a map from name to value.
pub open spec fn entries_map(entries: Seq<(&'static str, ViolationParam)>) -> Map<Seq<char>, ViolationParam> {
    Map::new(
        |name: Seq<char>| has_name(entries, name),
        |name: Seq<char>| entries[choose|i: int| 0 <= i < entries.len() && #[trigger] entries[i].0@ == name].1,
    )
}

/// Safe parameters of a violation, keyed by program-declared names; one
/// value per name.
#[derive(Debug, PartialEq, Eq)]
pub struct ViolationParams {
    /// Entries strictly increasing by name.
    entries: Vec<(&'static str, ViolationParam)>,
}

/// In a sorted entry sequence, names at different positions differ.
proof fn lemma_sorted_distinct(entries: Seq<(&'static str, ViolationParam)>, i: int, j: int)
    requires
        sorted_by_name(entries),
        0 <= i < entries.len(),
        0 <= j < entries.len(),
        i != j,
    ensures
        entries[i].0@ != entries[j].0@,
{
    lemma_str_eq_bytes(entries[i].0, entries[j].0);
    if i < j {
        assert(str_lt(entries[i].0, entries[j].0));
        lemma_bytes_lt_asymmetric(entries[i].0.spec_bytes(), entries[j].0.spec_bytes());
    } else {
        assert(str_lt(entries[j].0, entries[i].0));
        lemma_bytes_lt_asymmetric(entries[j].0.spec_bytes(), entries[i].0.spec_bytes());
    }
}

impl ViolationParams {
    #[verifier::type_invariant]
    spec fn sorted(self) -> bool {
        sorted_by_name(self.entries@)
    }

    /// The entries, strictly increasing by name.
    pub closed spec fn entries(self) -> Seq<(&'static str, ViolationParam)> {
        self.entries@
    }

    /// Creates an empty parameter set.
    pub fn new() -> (r: Self)
        ensures
            r@ == Map::<Seq<char>, ViolationParam>::empty(),
            r.entries().len() == 0,
    {
        let r = ViolationParams { entries: Vec::new() };
        assert(r@ =~= Map::<Seq<char>, ViolationParam>::empty());
        r
    }

    /// Sets the value of `name`, replacing an earlier value of that name.
    pub fn insert(&mut self, name: &'static str, value: ViolationParam)
        ensures
            final(self)@ == old(self)@.insert(name@, value),
    {
        proof {
            use_type_invariant(&*self);
        }
        let ghost old_entries = self.entries@;
        let mut index: usize = 0;
        while index < self.entries.len() && compare_str(self.entries[index].0, name) == TextOrder::Less
            invariant
                self.entries@ == old_entries,
                sorted_by_name(old_entries),
                index <= old_entries.len(),
                forall|k: int| 0 <= k < index ==> #[trigger] str_lt(old_entries[k].0, name),
            decreases old_entries.len() - index,
        {
            index += 1;
        }
        let found = index < self.entries.len() && compare_str(self.entries[index].0, name) == TextOrder::Equal;
        if found {
            let ghost e = old_entries;
            let mut entries: Vec<(&'static str, ViolationParam)> = Vec::new();
            std::mem::swap(&mut entries, &mut self.entries);
            entries.set(index, (name, value));
            proof {
                let n = entries@;
                assert(e[index as int].0@ == name@);
                lemma_str_eq_bytes(e[index as int].0, name);
                assert forall|i: int, j: int| 0 <= i < j < n.len() implies #[trigger] str_lt(n[i].0, n[j].0) && #[trigger] n[j].0 == n[j].0 by {
                    assert(str_lt(e[i].0, e[j].0));
                }
                assert forall|k: Seq<char>| #[trigger] has_name(n, k) == has_name(e, k) by {
                    if has_name(e, k) {
                        let i = choose|i: int| 0 <= i < e.len() && #[trigger] e[i].0@ == k;
                        assert(n[i].0@ == k);
                    }
                    if has_name(n, k) {
                        let i = choose|i: int| 0 <= i < n.len() && #[trigger] n[i].0@ == k;
                        assert(e[i].0@ == k);
                    }
                }
                assert forall|k: Seq<char>| has_name(n, k) implies entries_map(n)[k] == old(self)@.insert(name@, value)[k] by {
                    let i = choose|i: int| 0 <= i < n.len() && #[trigger] n[i].0@ == k;
                    if k == name@ {
                        if i != index {
                            lemma_sorted_distinct(n, i, index as int);
                        }
                    } else {
                        let j = choose|j: int| 0 <= j < e.len() && #[trigger] e[j].0@ == k;
                        if i != j {
                            lemma_sorted_distinct(e, i, j);
                        }
                    }
                }
                assert(entries_map(n) =~= old(self)@.insert(name@, value));
            }
            self.entries = entries;
        } else {
            let ghost e = old_entries;
            let mut entries: Vec<(&'static str, ViolationParam)> = Vec::new();
            std::mem::swap(&mut entries, &mut self.entries);
            entries.insert(index, (name, value));
            proof {
                let n = entries@;
                assert(index == e.len() || str_lt(name, e[index as int].0)) by {
                    if index < e.len() {
                        lemma_str_eq_bytes(e[index as int].0, name);
                        crate::internal::text::lemma_bytes_lt_total(e[index as int].0.spec_bytes(), name.spec_bytes());
                    }
                }
                assert forall|i: int, j: int| 0 <= i < j < n.len() implies #[trigger] str_lt(n[i].0, n[j].0) && #[trigger] n[j].0 == n[j].0 by {
                    if j < index {
                        assert(str_lt(e[i].0, e[j].0));
                    } else if j == index {
                        assert(str_lt(e[i].0, name));
                    } else if i > index {
                        assert(str_lt(e[i - 1].0, e[j - 1].0));
                    } else if i == index {
                        if j - 1 > index {
                            assert(str_lt(e[index as int].0, e[j - 1].0));
                            lemma_bytes_lt_transitive(name.spec_bytes(), e[index as int].0.spec_bytes(), e[j - 1].0.spec_bytes());
                        }
                    } else {
                        assert(str_lt(e[i].0, e[j - 1].0));
                    }
                }
                assert forall|k: Seq<char>| #[trigger] has_name(n, k) == (has_name(e, k) || k == name@) by {
                    if has_name(e, k) {
                        let i = choose|i: int| 0 <= i < e.len() && #[trigger] e[i].0@ == k;
                        if i < index {
                            assert(n[i].0@ == k);
                        } else {
                            assert(n[i + 1].0@ == k);
                        }
                    }
                    if k == name@ {
                        assert(n[index as int].0@ == k);
                    }
                    if has_name(n, k) && k != name@ {
                        let i = choose|i: int| 0 <= i < n.len() && #[trigger] n[i].0@ == k;
                        if i < index {
                            assert(e[i].0@ == k);
                        } else {
                            assert(i != index);
                            assert(e[i - 1].0@ == k);
                        }
                    }
                }
                assert forall|k: Seq<char>| has_name(n, k) implies entries_map(n)[k] == old(self)@.insert(name@, value)[k] by {
                    let i = choose|i: int| 0 <= i < n.len() && #[trigger] n[i].0@ == k;
                    if k == name@ {
                        if i != index {
                            lemma_sorted_distinct(n, i, index as int);
                        }
                    } else {
                        let j = choose|j: int| 0 <= j < e.len() && #[trigger] e[j].0@ == k;
                        let jn = if j < index { j } else { j + 1 };
                        assert(n[jn].0@ == k);
                        if i != jn {
                            lemma_sorted_distinct(n, i, jn);
                        }
                    }
                }
                assert(entries_map(n) =~= old(self)@.insert(name@, value));
            }
            self.entries = entries;
        }
    }

    /// Returns the value of `name`, if one was set.
    pub fn get(&self, name: &str) -> (r: Option<ViolationParam>)
        ensures
            r == (if self@.contains_key(name@) { Some(self@[name@]) } else { None }),
    {
        proof {
            use_type_invariant(self);
        }
        let mut index: usize = 0;
        while index < self.entries.len()
            invariant
                sorted_by_name(self.entries@),
                index <= self.entries@.len(),
                forall|k: int| 0 <= k < index ==> #[trigger] self.entries@[k].0@ != name@,
            decreases self.entries@.len() - index,
        {
            if crate::internal::text::str_eq(self.entries[index].0, name) {
                proof {
                    let e = self.entries@;
                    let i = choose|i: int| 0 <= i < e.len() && #[trigger] e[i].0@ == name@;
                    if i != index {
                        lemma_sorted_distinct(e, i, index as int);
                    }
                }
                return Some(self.entries[index].1);
            }
            index += 1;
        }
        None
    }

    /// Returns the number of named parameters.
    pub fn len(&self) -> (r: usize)
        ensures
            r == self.entries().len(),
    {
        self.entries.len()
    }
}

impl View for ViolationParams {
    type V = Map<Seq<char>, ViolationParam>;

    open spec fn view(&self) -> Map<Seq<char>, ViolationParam> {
        entries_map(self.entries())
    }
}

} // verus!

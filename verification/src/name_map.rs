//! A map from names to values that keeps the order in which names were first inserted.
use vstd::prelude::*;

use crate::text::str_eq;

verus! {

/// A map from names to values; each name occurs once.
#[derive(Debug, Clone, PartialEq, Eq)]
pub struct NameMap<V> {
    entries: Vec<(String, V)>,
}

/// No name occurs twice among the entries.
pub open spec fn names_unique<V>(entries: Seq<(String, V)>) -> bool {
    forall|i: int, j: int|
        0 <= i < entries.len() && 0 <= j < entries.len() && i != j ==> #[trigger] entries[i].0@
            != #[trigger] entries[j].0@
}

impl<V> NameMap<V> {
    /// The entries, in the order in which their names were first inserted.
    pub closed spec fn entries(&self) -> Seq<(String, V)> {
        self.entries@
    }

    /// Every name occurs once.
    pub closed spec fn well_formed(&self) -> bool {
        names_unique(self.entries@)
    }

    /// The names, in order.
    pub open spec fn names(&self) -> Seq<Seq<char>> {
        self.entries().map_values(|e: (String, V)| e.0@)
    }

    /// The value of the name `k`, if it has one.
    pub open spec fn lookup(&self, k: Seq<char>) -> Option<V> {
        if exists|i: int| 0 <= i < self.entries().len() && #[trigger] self.entries()[i].0@ == k {
            Some(
                self.entries()[choose|i: int|
                    0 <= i < self.entries().len() && #[trigger] self.entries()[i].0@ == k].1,
            )
        } else {
            None
        }
    }

    /// In a well formed map, the value of the name at position `i` is the value at `i`.
    pub proof fn lemma_lookup_at(&self, i: int)
        requires
            self.well_formed(),
            0 <= i < self.entries().len(),
        ensures
            self.lookup(self.entries()[i].0@) == Some(self.entries()[i].1),
    {
        let k = self.entries()[i].0@;
        let j = choose|j: int| 0 <= j < self.entries().len() && #[trigger] self.entries()[j].0@ == k;
        assert(self.entries()[j].0@ == k);
    }

    /// In a well formed map, entries at different positions have different names.
    pub proof fn lemma_names_distinct(&self, i: int, j: int)
        requires
            self.well_formed(),
            0 <= i < self.entries().len(),
            0 <= j < self.entries().len(),
            i != j,
        ensures
            self.entries()[i].0@ != self.entries()[j].0@,
    {
    }

    /// A name has a value exactly when it is among the names.
    pub proof fn lemma_lookup_names(&self, k: Seq<char>)
        ensures
            self.lookup(k) is Some <==> self.names().contains(k),
    {
        if self.names().contains(k) {
            let i = choose|i: int| 0 <= i < self.names().len() && self.names()[i] == k;
            assert(self.entries()[i].0@ == k);
        }
        if self.lookup(k) is Some {
            let i = choose|i: int| 0 <= i < self.entries().len() && #[trigger] self.entries()[i].0@ == k;
            assert(self.names()[i] == k);
        }
    }

    /// The empty map.
    pub fn new() -> (m: NameMap<V>)
        ensures
            m.well_formed(),
            m.entries() == Seq::<(String, V)>::empty(),
    {
        NameMap { entries: Vec::new() }
    }

    /// The number of names.
    pub fn len(&self) -> (n: usize)
        ensures
            n == self.entries().len(),
    {
        self.entries.len()
    }

    /// The name at position `i`.
    pub fn name_at(&self, i: usize) -> (n: &String)
        requires
            i < self.entries().len(),
        ensures
            *n == self.entries()[i as int].0,
    {
        &self.entries[i].0
    }

    /// The value at position `i`.
    pub fn value_at(&self, i: usize) -> (v: &V)
        requires
            i < self.entries().len(),
        ensures
            *v == self.entries()[i as int].1,
    {
        &self.entries[i].1
    }

    /// The position of the name `k`, if it is in the map.
    pub fn position(&self, k: &str) -> (r: Option<usize>)
        ensures
            r matches Some(i) ==> i < self.entries().len() && self.entries()[i as int].0@ == k@,
            r is None ==> !self.names().contains(k@) && self.lookup(k@) is None,
    {
        let mut i: usize = 0;
        while i < self.entries.len()
            invariant
                i <= self.entries@.len(),
                forall|j: int| 0 <= j < i ==> #[trigger] self.entries@[j].0@ != k@,
            decreases self.entries@.len() - i,
        {
            if str_eq(self.entries[i].0.as_str(), k) {
                return Some(i);
            }
            i = i + 1;
        }
        proof {
            self.lemma_lookup_names(k@);
            if self.names().contains(k@) {
                let j = choose|j: int| 0 <= j < self.names().len() && self.names()[j] == k@;
                assert(self.entries@[j].0@ == k@);
            }
        }
        None
    }

    /// Is the name `k` in the map?
    pub fn contains_key(&self, k: &str) -> (r: bool)
        ensures
            r == self.names().contains(k@),
    {
        match self.position(k) {
            Some(i) => {
                assert(self.names()[i as int] == k@);
                true
            },
            None => false,
        }
    }

    /// The value of the name `k`, if it has one.
    pub fn get(&self, k: &str) -> (r: Option<&V>)
        requires
            self.well_formed(),
        ensures
            match r {
                Some(v) => self.lookup(k@) == Some(*v),
                None => self.lookup(k@) is None,
            },
    {
        match self.position(k) {
            Some(i) => {
                proof {
                    self.lemma_lookup_at(i as int);
                }
                Some(&self.entries[i].1)
            },
            None => None,
        }
    }

    /// Give the name `k` the value `v`; the value it had before, if any, is returned. A new name
    /// is placed after all others.
    pub fn insert(&mut self, k: String, v: V) -> (previous: Option<V>)
        requires
            old(self).well_formed(),
        ensures
            final(self).well_formed(),
            previous == old(self).lookup(k@),
            final(self).lookup(k@) == Some(v),
            forall|other: Seq<char>| other != k@ ==> #[trigger] final(self).lookup(other) == old(self).lookup(other),
            forall|other: Seq<char>| #[trigger] final(self).names().contains(other) <==> (other == k@ || old(self).names().contains(other)),
            !old(self).names().contains(k@) ==> final(self).entries() == old(self).entries().push((k, v)),
            old(self).names().contains(k@) ==> final(self).names() == old(self).names(),
            final(self).entries().len() == old(self).entries().len() + (if old(self).names().contains(k@) {
                0int
            } else {
                1int
            }),
    {
        let ghost before = *self;
        let ghost kv = k@;
        proof {
            before.lemma_lookup_names(kv);
        }
        match self.position(k.as_str()) {
            Some(i) => {
                proof {
                    before.lemma_lookup_at(i as int);
                    assert(before.names()[i as int] == kv);
                }
                let mut entry = (k, v);
                std::mem::swap(&mut entry, &mut self.entries[i]);
                let previous = entry.1;
                assert forall|j: int| 0 <= j < self.entries@.len() implies #[trigger] self.entries@[j].0@
                    == before.entries()[j].0@ by {
                }
                assert(self.well_formed());
                proof {
                    self.lemma_lookup_at(i as int);
                    assert forall|other: Seq<char>| other != kv implies #[trigger] self.lookup(other)
                        == before.lookup(other) by {
                        if before.lookup(other) is Some {
                            let j = choose|j: int|
                                0 <= j < before.entries().len() && #[trigger] before.entries()[j].0@ == other;
                            before.lemma_lookup_at(j);
                            self.lemma_lookup_at(j);
                        }
                        if self.lookup(other) is Some {
                            let j = choose|j: int|
                                0 <= j < self.entries().len() && #[trigger] self.entries()[j].0@ == other;
                            assert(before.entries()[j].0@ == other);
                        }
                    }
                    assert forall|other: Seq<char>| #[trigger] self.names().contains(other) <==> (other == kv
                        || before.names().contains(other)) by {
                        if self.names().contains(other) {
                            let j = choose|j: int| 0 <= j < self.names().len() && self.names()[j] == other;
                            assert(before.names()[j] == other);
                        }
                        if before.names().contains(other) {
                            let j = choose|j: int| 0 <= j < before.names().len() && before.names()[j] == other;
                            assert(self.names()[j] == other);
                        }
                        if other == kv {
                            assert(self.names()[i as int] == kv);
                        }
                    }
                }
                Some(previous)
            },
            None => {
                self.entries.push((k, v));
                let n = self.entries.len();
                assert forall|a: int, b: int|
                    0 <= a < self.entries@.len() && 0 <= b < self.entries@.len() && a != b implies #[trigger] self.entries@[a].0@
                    != #[trigger] self.entries@[b].0@ by {
                    if a == n - 1 && b < n - 1 {
                        assert(before.names()[b] == self.entries@[b].0@);
                    }
                    if b == n - 1 && a < n - 1 {
                        assert(before.names()[a] == self.entries@[a].0@);
                    }
                }
                proof {
                    self.lemma_lookup_at(n - 1);
                    assert forall|other: Seq<char>| other != kv implies #[trigger] self.lookup(other)
                        == before.lookup(other) by {
                        if before.lookup(other) is Some {
                            let j = choose|j: int|
                                0 <= j < before.entries().len() && #[trigger] before.entries()[j].0@ == other;
                            before.lemma_lookup_at(j);
                            self.lemma_lookup_at(j);
                        }
                        if self.lookup(other) is Some {
                            let j = choose|j: int|
                                0 <= j < self.entries().len() && #[trigger] self.entries()[j].0@ == other;
                            assert(before.entries()[j].0@ == other);
                        }
                    }
                    assert forall|other: Seq<char>| #[trigger] self.names().contains(other) <==> (other == kv
                        || before.names().contains(other)) by {
                        if self.names().contains(other) {
                            let j = choose|j: int| 0 <= j < self.names().len() && self.names()[j] == other;
                            if j < n - 1 {
                                assert(before.names()[j] == other);
                            }
                        }
                        if before.names().contains(other) {
                            let j = choose|j: int| 0 <= j < before.names().len() && before.names()[j] == other;
                            assert(self.names()[j] == other);
                        }
                        if other == kv {
                            assert(self.names()[n - 1] == kv);
                        }
                    }
                }
                None
            },
        }
    }
}

} // verus!

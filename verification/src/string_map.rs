//! A map from strings to values, kept as a vector of entries in the
//! lexicographic order of their keys, each key once.
use vstd::prelude::*;
use crate::text::{
    lemma_lex_irreflexive, lemma_lex_total, lemma_lex_transitive, lex_lt, str_eq, str_lt,
};

verus! {

/// Whether the keys of `entries` stand in strictly ascending order.
pub open spec fn ascending<V>(entries: Seq<(String, V)>) -> bool {
    forall|i: int, j: int|
        0 <= i < j < entries.len() ==> lex_lt(#[trigger] entries[i].0@, #[trigger] entries[j].0@)
}

/// Whether `key` is the key of an entry.
pub open spec fn has_key<V>(entries: Seq<(String, V)>, key: Seq<char>) -> bool {
    exists|i: int| 0 <= i < entries.len() && #[trigger] entries[i].0@ == key
}

/// An index at which `key` stands, where it stands at one.
pub open spec fn key_index<V>(entries: Seq<(String, V)>, key: Seq<char>) -> int {
    choose|i: int| 0 <= i < entries.len() && #[trigger] entries[i].0@ == key
}

/// The map that `entries` stand for.
pub open spec fn entries_map<V>(entries: Seq<(String, V)>) -> Map<Seq<char>, V> {
    Map::new(|k: Seq<char>| has_key(entries, k), |k: Seq<char>| entries[key_index(entries, k)].1)
}

/// In ascending entries a key stands at one place only.
pub proof fn lemma_ascending_unique<V>(entries: Seq<(String, V)>, i: int, j: int)
    requires
        ascending(entries),
        0 <= i < entries.len(),
        0 <= j < entries.len(),
        entries[i].0@ == entries[j].0@,
    ensures
        i == j,
{
    lemma_lex_irreflexive(entries[i].0@);
}

/// The map of ascending entries holds each entry under its key.
pub proof fn lemma_entries_map_at<V>(entries: Seq<(String, V)>, i: int)
    requires
        ascending(entries),
        0 <= i < entries.len(),
    ensures
        entries_map(entries).dom().contains(entries[i].0@),
        entries_map(entries)[entries[i].0@] == entries[i].1,
{
    let k = entries[i].0@;
    assert(has_key(entries, k));
    lemma_ascending_unique(entries, i, key_index(entries, k));
}

/// The map of ascending entries is finite and has as many keys as there are
/// entries.
pub proof fn lemma_entries_map_len<V>(entries: Seq<(String, V)>)
    requires
        ascending(entries),
    ensures
        entries_map(entries).dom().finite(),
        entries_map(entries).dom().len() == entries.len(),
    decreases entries.len(),
{
    if entries.len() == 0 {
        assert(entries_map(entries).dom() =~= Set::<Seq<char>>::empty());
    } else {
        let front = entries.drop_last();
        let k = entries.last().0@;
        assert(ascending(front)) by {
            assert forall|i: int, j: int| 0 <= i < j < front.len() implies lex_lt(
                #[trigger] front[i].0@,
                #[trigger] front[j].0@,
            ) by {
                assert(front[i] == entries[i] && front[j] == entries[j]);
            }
        }
        lemma_entries_map_len(front);
        assert(!entries_map(front).dom().contains(k)) by {
            if entries_map(front).dom().contains(k) {
                let i = key_index(front, k);
                assert(front[i] == entries[i]);
                lemma_ascending_unique(entries, i, entries.len() - 1);
            }
        }
        assert(entries_map(entries).dom() =~= entries_map(front).dom().insert(k)) by {
            assert forall|key: Seq<char>| entries_map(entries).dom().contains(key) implies entries_map(
                front,
            ).dom().insert(k).contains(key) by {
                let i = key_index(entries, key);
                if i < front.len() {
                    assert(front[i].0@ == key);
                }
            }
            assert forall|key: Seq<char>| entries_map(front).dom().insert(k).contains(
                key,
            ) implies entries_map(entries).dom().contains(key) by {
                if key == k {
                    assert(entries[entries.len() - 1].0@ == key);
                } else {
                    let i = key_index(front, key);
                    assert(entries[i].0@ == key);
                }
            }
        }
    }
}

/// Two maps with the same keys and the same value under each key are equal.
pub proof fn lemma_same_map<V>(a: Map<Seq<char>, V>, b: Map<Seq<char>, V>)
    requires
        forall|k: Seq<char>| #[trigger] a.dom().contains(k) ==> b.dom().contains(k) && a[k] == b[k],
        forall|k: Seq<char>| #[trigger] b.dom().contains(k) ==> a.dom().contains(k),
    ensures
        a == b,
{
    assert(a =~= b);
}

/// A map from strings to values. Two maps with the same entries are equal,
/// in whatever order the entries were put in.
#[derive(Debug, PartialEq)]
pub struct StringMap<V> {
    entries: Vec<(String, V)>,
}

impl<V> StringMap<V> {
    #[verifier::type_invariant]
    spec fn well_formed(self) -> bool {
        ascending(self.entries@)
    }

    /// The map that this value stands for.
    pub closed spec fn view(&self) -> Map<Seq<char>, V> {
        entries_map(self.entries@)
    }

    /// A map without entries.
    pub fn new() -> (r: Self)
        ensures
            r@ == Map::<Seq<char>, V>::empty(),
    {
        let r = StringMap { entries: Vec::new() };
        assert(r@ =~= Map::<Seq<char>, V>::empty());
        r
    }

    /// Whether the map has no entry.
    pub fn is_empty(&self) -> (r: bool)
        ensures
            r == (self@ == Map::<Seq<char>, V>::empty()),
            r == (self@.dom().len() == 0),
    {
        proof {
            use_type_invariant(self);
            lemma_entries_map_len(self.entries@);
            if self.entries@.len() == 0 {
                assert(self@ =~= Map::<Seq<char>, V>::empty());
            } else {
                lemma_entries_map_at(self.entries@, 0);
            }
        }
        self.entries.len() == 0
    }

    /// The number of entries.
    pub fn len(&self) -> (r: usize)
        ensures
            self@.dom().finite(),
            r == self@.dom().len(),
    {
        proof {
            use_type_invariant(self);
            lemma_entries_map_len(self.entries@);
        }
        self.entries.len()
    }

    /// Where `key` stands, or where it would have to stand: the index, and
    /// whether the key is there.
    fn position(&self, key: &str) -> (r: (usize, bool))
        ensures
            r.0 <= self.entries@.len(),
            forall|i: int| 0 <= i < r.0 ==> lex_lt(#[trigger] self.entries@[i].0@, key@),
            r.1 ==> r.0 < self.entries@.len() && self.entries@[r.0 as int].0@ == key@,
            !r.1 ==> forall|i: int|
                r.0 <= i < self.entries@.len() ==> lex_lt(key@, #[trigger] self.entries@[i].0@),
            r.1 == self@.dom().contains(key@),
    {
        proof {
            use_type_invariant(self);
        }
        let mut i: usize = 0;
        while i < self.entries.len()
            invariant
                i <= self.entries@.len(),
                ascending(self.entries@),
                forall|j: int| 0 <= j < i ==> lex_lt(#[trigger] self.entries@[j].0@, key@),
            decreases self.entries@.len() - i,
        {
            let here = self.entries[i].0.as_str();
            if str_eq(here, key) {
                proof {
                    lemma_entries_map_at(self.entries@, i as int);
                }
                return (i, true);
            }
            if !str_lt(here, key) {
                proof {
                    lemma_lex_total(here@, key@);
                    assert forall|j: int| i <= j < self.entries@.len() implies lex_lt(
                        key@,
                        #[trigger] self.entries@[j].0@,
                    ) by {
                        if j > i {
                            lemma_lex_transitive(key@, here@, self.entries@[j].0@);
                        }
                    }
                    self.lemma_absent(key@, i as int);
                }
                return (i, false);
            }
            i += 1;
        }
        proof {
            self.lemma_absent(key@, i as int);
        }
        (i, false)
    }

    /// A key that stands between the entries before `at` and those from `at`
    /// on is not in the map.
    proof fn lemma_absent(&self, key: Seq<char>, at: int)
        requires
            0 <= at <= self.entries@.len(),
            forall|i: int| 0 <= i < at ==> lex_lt(#[trigger] self.entries@[i].0@, key),
            forall|i: int|
                at <= i < self.entries@.len() ==> lex_lt(key, #[trigger] self.entries@[i].0@),
        ensures
            !self@.dom().contains(key),
    {
        if self@.dom().contains(key) {
            let i = key_index(self.entries@, key);
            lemma_lex_irreflexive(key);
        }
    }

    /// The value under `key`.
    pub fn get(&self, key: &str) -> (r: Option<&V>)
        ensures
            match r {
                Some(v) => self@.dom().contains(key@) && self@[key@] == *v,
                None => !self@.dom().contains(key@),
            },
    {
        proof {
            use_type_invariant(self);
        }
        let (at, found) = self.position(key);
        if found {
            proof {
                lemma_entries_map_at(self.entries@, at as int);
            }
            Some(&self.entries[at].1)
        } else {
            None
        }
    }

    /// Puts `value` under `key`, in place of what was there.
    pub fn insert(&mut self, key: String, value: V)
        ensures
            final(self)@ == old(self)@.insert(key@, value),
    {
        proof {
            use_type_invariant(&*self);
        }
        let (at, found) = self.position(key.as_str());
        let ghost before = self.entries@;
        let mut entries: Vec<(String, V)> = Vec::new();
        std::mem::swap(&mut entries, &mut self.entries);
        if found {
            entries.set(at, (key, value));
        } else {
            entries.insert(at, (key, value));
        }
        proof {
            let after = entries@;
            let p = at as int;
            assert(ascending(after)) by {
                assert forall|i: int, j: int| 0 <= i < j < after.len() implies lex_lt(
                    #[trigger] after[i].0@,
                    #[trigger] after[j].0@,
                ) by {
                    if found {
                        if i != p {
                            assert(after[i] == before[i]);
                        }
                        if j != p {
                            assert(after[j] == before[j]);
                        }
                        assert(lex_lt(before[i].0@, before[j].0@));
                    } else {
                        let bi = if i < p { i } else { i - 1 };
                        let bj = if j < p { j } else { j - 1 };
                        if i != p {
                            assert(after[i] == before[bi]);
                        }
                        if j != p {
                            assert(after[j] == before[bj]);
                        }
                        if i != p && j != p {
                            assert(lex_lt(before[bi].0@, before[bj].0@));
                        }
                    }
                }
            }
            let m1 = entries_map(after);
            let m2 = entries_map(before).insert(key@, value);
            assert forall|k: Seq<char>| #[trigger] m1.dom().contains(k) implies m2.dom().contains(k)
                && m1[k] == m2[k] by {
                let i = key_index(after, k);
                lemma_entries_map_at(after, i);
                if i != p {
                    let bi = if found || i < p { i } else { i - 1 };
                    assert(after[i] == before[bi]);
                    lemma_entries_map_at(before, bi);
                    if k == key@ {
                        if found {
                            lemma_ascending_unique(before, bi, p);
                        } else {
                            assert(has_key(before, key@));
                        }
                    }
                }
            }
            assert forall|k: Seq<char>| #[trigger]
                m2.dom().contains(k) implies m1.dom().contains(k) by {
                if k == key@ {
                    assert(after[p].0@ == k);
                } else {
                    let bi = key_index(before, k);
                    let i = if found || bi < p { bi } else { bi + 1 };
                    assert(after[i] == before[bi]);
                }
            }
            lemma_same_map(m1, m2);
        }
        self.entries = entries;
    }

    /// Takes out what stands under `key`, and returns it.
    pub fn remove(&mut self, key: &str) -> (r: Option<V>)
        ensures
            final(self)@ == old(self)@.remove(key@),
            match r {
                Some(v) => old(self)@.dom().contains(key@) && old(self)@[key@] == v,
                None => !old(self)@.dom().contains(key@),
            },
    {
        proof {
            use_type_invariant(&*self);
        }
        let (at, found) = self.position(key);
        if !found {
            assert(self@.remove(key@) =~= self@);
            return None;
        }
        let ghost before = self.entries@;
        let mut entries: Vec<(String, V)> = Vec::new();
        std::mem::swap(&mut entries, &mut self.entries);
        let removed = entries.remove(at);
        proof {
            let after = entries@;
            let p = at as int;
            lemma_entries_map_at(before, p);
            assert(ascending(after)) by {
                assert forall|i: int, j: int| 0 <= i < j < after.len() implies lex_lt(
                    #[trigger] after[i].0@,
                    #[trigger] after[j].0@,
                ) by {
                    let bi = if i < p { i } else { i + 1 };
                    let bj = if j < p { j } else { j + 1 };
                    assert(after[i] == before[bi]);
                    assert(after[j] == before[bj]);
                    assert(lex_lt(before[bi].0@, before[bj].0@));
                }
            }
            let m1 = entries_map(after);
            let m2 = entries_map(before).remove(key@);
            assert forall|k: Seq<char>| #[trigger] m1.dom().contains(k) implies m2.dom().contains(k)
                && m1[k] == m2[k] by {
                let i = key_index(after, k);
                let bi = if i < p { i } else { i + 1 };
                assert(after[i] == before[bi]);
                if k == key@ {
                    lemma_ascending_unique(before, bi, p);
                }
                lemma_entries_map_at(after, i);
                lemma_entries_map_at(before, bi);
            }
            assert forall|k: Seq<char>| #[trigger]
                m2.dom().contains(k) implies m1.dom().contains(k) by {
                let bi = key_index(before, k);
                let i = if bi < p { bi } else { bi - 1 };
                assert(after[i] == before[bi]);
            }
            lemma_same_map(m1, m2);
        }
        self.entries = entries;
        Some(removed.1)
    }
}

impl<V: Clone> Clone for StringMap<V> {
    /// A map with the same keys, and under each a clone of its value.
    fn clone(&self) -> (r: Self)
        ensures
            r@.dom() == self@.dom(),
            forall|k: Seq<char>| #[trigger] r@.dom().contains(k) ==> cloned(self@[k], r@[k]),
    {
        proof {
            use_type_invariant(self);
        }
        let mut entries: Vec<(String, V)> = Vec::new();
        let mut i: usize = 0;
        while i < self.entries.len()
            invariant
                i <= self.entries@.len(),
                entries@.len() == i,
                forall|j: int| 0 <= j < i ==> #[trigger] entries@[j].0 == self.entries@[j].0,
                forall|j: int| 0 <= j < i ==> cloned(self.entries@[j].1, #[trigger] entries@[j].1),
            decreases self.entries@.len() - i,
        {
            let key = self.entries[i].0.clone();
            let value = self.entries[i].1.clone();
            entries.push((key, value));
            i += 1;
        }
        proof {
            assert(ascending(entries@)) by {
                assert forall|a: int, b: int| 0 <= a < b < entries@.len() implies lex_lt(
                    #[trigger] entries@[a].0@,
                    #[trigger] entries@[b].0@,
                ) by {
                    assert(entries@[a].0 == self.entries@[a].0);
                    assert(entries@[b].0 == self.entries@[b].0);
                    assert(lex_lt(self.entries@[a].0@, self.entries@[b].0@));
                }
            }
            assert forall|k: Seq<char>| #[trigger]
                entries_map(entries@).dom().contains(k) implies cloned(
                entries_map(self.entries@)[k],
                entries_map(entries@)[k],
            ) by {
                let j = key_index(entries@, k);
                assert(self.entries@[j].0@ == k);
                lemma_entries_map_at(entries@, j);
                lemma_entries_map_at(self.entries@, j);
            }
            assert(entries_map(entries@).dom() =~= entries_map(self.entries@).dom()) by {
                assert forall|k: Seq<char>| has_key(entries@, k) <==> has_key(self.entries@, k) by {
                    if has_key(entries@, k) {
                        let j = key_index(entries@, k);
                        assert(self.entries@[j].0@ == k);
                    }
                    if has_key(self.entries@, k) {
                        let j = key_index(self.entries@, k);
                        assert(entries@[j].0@ == k);
                    }
                }
            }
        }
        StringMap { entries }
    }
}

} // verus!

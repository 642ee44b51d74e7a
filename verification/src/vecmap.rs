//! A small associative container: a vector of entries with unique text
//! keys, viewed as a `Map` from key to entry.
//!
//! Several parts of the engine (snapshot stores, idempotency keys,
//! registries, metric tables) need a map keyed by a string; this is the
//! one verified implementation they share.

use vstd::prelude::*;

verus! {

/// An entry that knows its own key.
pub trait Keyed: Sized {
    /// The entry's key text.
    spec fn key(&self) -> Seq<char>;

    /// Compare the entry's key with `k`.
    fn matches_key(&self, k: &String) -> (r: bool)
        ensures
            r == (self.key() == k@),
    ;
}

/// The map described by a sequence of entries; a later entry with the
/// same key wins.
pub open spec fn assoc_map<V: Keyed>(s: Seq<V>) -> Map<Seq<char>, V>
    decreases s.len(),
{
    if s.len() == 0 {
        Map::empty()
    } else {
        assoc_map(s.drop_last()).insert(s.last().key(), s.last())
    }
}

/// No two entries share a key.
pub open spec fn unique_keys<V: Keyed>(s: Seq<V>) -> bool {
    forall|i: int, j: int| 0 <= i < j < s.len() ==> (#[trigger] s[i]).key() != (#[trigger] s[j]).key()
}

/// A key is in the map exactly when some entry carries it.
pub proof fn lemma_assoc_contains<V: Keyed>(s: Seq<V>, k: Seq<char>)
    ensures
        assoc_map(s).contains_key(k) <==> exists|i: int| 0 <= i < s.len() && (#[trigger] s[i]).key() == k,
    decreases s.len(),
{
    if s.len() > 0 {
        lemma_assoc_contains(s.drop_last(), k);
        if s.last().key() == k {
            assert(s[s.len() - 1].key() == k);
        } else if assoc_map(s).contains_key(k) {
            let i = choose|i: int| 0 <= i < s.drop_last().len() && (#[trigger] s.drop_last()[i]).key() == k;
            assert(s[i].key() == k);
        } else {
            assert forall|i: int| 0 <= i < s.len() implies (#[trigger] s[i]).key() != k by {
                if i < s.len() - 1 {
                    assert(s.drop_last()[i] == s[i]);
                }
            }
        }
    }
}

/// Under unique keys, the map sends each entry's key to that entry.
pub proof fn lemma_assoc_index<V: Keyed>(s: Seq<V>, i: int)
    requires
        unique_keys(s),
        0 <= i < s.len(),
    ensures
        assoc_map(s).contains_key(s[i].key()),
        assoc_map(s)[s[i].key()] == s[i],
    decreases s.len(),
{
    if i == s.len() - 1 {
    } else {
        assert(s.drop_last()[i] == s[i]);
        lemma_assoc_index(s.drop_last(), i);
        assert(s[s.len() - 1].key() != s[i].key());
    }
}

/// Replacing the entry at `i` by one with the same key updates the map
/// at that key alone.
pub proof fn lemma_assoc_update<V: Keyed>(s: Seq<V>, i: int, v: V)
    requires
        unique_keys(s),
        0 <= i < s.len(),
        s[i].key() == v.key(),
    ensures
        assoc_map(s.update(i, v)) =~= assoc_map(s).insert(v.key(), v),
    decreases s.len(),
{
    let t = s.update(i, v);
    if i == s.len() - 1 {
        assert(t.drop_last() =~= s.drop_last());
        assert(t.last() == v);
    } else {
        assert(t.last() == s.last());
        assert(t.drop_last() =~= s.drop_last().update(i, v));
        assert(s.drop_last()[i] == s[i]);
        lemma_assoc_update(s.drop_last(), i, v);
        assert(s[s.len() - 1].key() != s[i].key());
    }
}

/// Appending an entry inserts it into the map.
pub proof fn lemma_assoc_push<V: Keyed>(s: Seq<V>, v: V)
    ensures
        assoc_map(s.push(v)) =~= assoc_map(s).insert(v.key(), v),
{
    assert(s.push(v).drop_last() =~= s);
    assert(s.push(v).last() == v);
}

/// Under unique keys the map has one element per entry.
pub proof fn lemma_assoc_len<V: Keyed>(s: Seq<V>)
    requires
        unique_keys(s),
    ensures
        assoc_map(s).dom().finite(),
        assoc_map(s).dom().len() == s.len(),
    decreases s.len(),
{
    if s.len() > 0 {
        lemma_assoc_len(s.drop_last());
        lemma_assoc_contains(s.drop_last(), s.last().key());
        assert forall|i: int| 0 <= i < s.drop_last().len()
            implies (#[trigger] s.drop_last()[i]).key() != s.last().key() by {
            assert(s.drop_last()[i] == s[i]);
            assert(s[s.len() - 1].key() != s[i].key());
        }
        assert(!assoc_map(s.drop_last()).contains_key(s.last().key()));
        vstd::set::axiom_set_insert_len(assoc_map(s.drop_last()).dom(), s.last().key());
        assert(assoc_map(s).dom() =~= assoc_map(s.drop_last()).dom().insert(s.last().key()));
    }
}

/// The sum of `f` over the entries of `s`.
pub open spec fn sum_by<V>(s: Seq<V>, f: spec_fn(V) -> int) -> int
    decreases s.len(),
{
    if s.len() == 0 {
        0
    } else {
        sum_by(s.drop_last(), f) + f(s.last())
    }
}

/// A value stored under a caller-chosen name (for registries whose key
/// is not a field of the value itself).
#[derive(Debug, Clone)]
pub struct NamedEntry<V> {
    /// The name the value is registered under.
    pub name: String,
    /// The registered value.
    pub value: V,
}

impl<V> Keyed for NamedEntry<V> {
    open spec fn key(&self) -> Seq<char> {
        self.name@
    }

    fn matches_key(&self, k: &String) -> (r: bool) {
        self.name == *k
    }
}

/// Vector of uniquely keyed entries, seen as a map from key to entry.
#[derive(Debug, Clone)]
pub struct KeyedVec<V> {
    entries: Vec<V>,
}

impl<V: Keyed> KeyedVec<V> {
    /// The entries in insertion order.
    pub closed spec fn entries_seq(&self) -> Seq<V> {
        self.entries@
    }

    /// The entries as a map from key to entry.
    pub open spec fn view(&self) -> Map<Seq<char>, V> {
        assoc_map(self.entries_seq())
    }

    /// Keys are pairwise distinct.
    pub open spec fn well_formed(&self) -> bool {
        unique_keys(self.entries_seq())
    }

    /// An empty container.
    pub fn new() -> (r: Self)
        ensures
            r.well_formed(),
            r.view() == Map::<Seq<char>, V>::empty(),
            r.entries_seq().len() == 0,
    {
        KeyedVec { entries: Vec::new() }
    }

    /// Number of entries (and of keys).
    pub fn len(&self) -> (r: usize)
        requires
            self.well_formed(),
        ensures
            r == self.entries_seq().len(),
            r == self.view().dom().len(),
    {
        proof {
            lemma_assoc_len(self.entries_seq());
        }
        self.entries.len()
    }

    /// Index of the entry carrying `k`, if any.
    fn find(&self, k: &String) -> (r: Option<usize>)
        ensures
            r matches Some(i) ==> i < self.entries_seq().len() && self.entries_seq()[i as int].key() == k@,
            r is None ==> forall|i: int|
                0 <= i < self.entries_seq().len() ==> (#[trigger] self.entries_seq()[i]).key() != k@,
    {
        let n = self.entries.len();
        let mut i: usize = 0;
        while i < n
            invariant
                n == self.entries_seq().len(),
                i <= n,
                forall|j: int| 0 <= j < i ==> (#[trigger] self.entries_seq()[j]).key() != k@,
            decreases n - i,
        {
            if self.entries[i].matches_key(k) {
                return Some(i);
            }
            i = i + 1;
        }
        None
    }

    /// The entry stored under `k`, if any.
    pub fn get(&self, k: &String) -> (r: Option<&V>)
        requires
            self.well_formed(),
        ensures
            r is Some <==> self.view().contains_key(k@),
            r matches Some(v) ==> *v == self.view()[k@] && v.key() == k@,
    {
        proof {
            lemma_assoc_contains(self.entries_seq(), k@);
        }
        match self.find(k) {
            Some(i) => {
                proof {
                    lemma_assoc_index(self.entries_seq(), i as int);
                }
                Some(&self.entries[i])
            },
            None => None,
        }
    }

    /// True when an entry is stored under `k`.
    pub fn contains_key(&self, k: &String) -> (r: bool)
        requires
            self.well_formed(),
        ensures
            r == self.view().contains_key(k@),
    {
        matches!(self.get(k), Some(_))
    }

    /// Store `v` under its own key: a fresh key appends the entry, a
    /// known key replaces its entry in place.
    pub fn insert(&mut self, k: &String, v: V)
        requires
            old(self).well_formed(),
            v.key() == k@,
        ensures
            final(self).well_formed(),
            final(self).view() == old(self).view().insert(v.key(), v),
            !old(self).view().contains_key(v.key())
                ==> final(self).entries_seq() == old(self).entries_seq().push(v),
            old(self).view().contains_key(v.key())
                ==> exists|i: int| 0 <= i < old(self).entries_seq().len()
                    && (#[trigger] old(self).entries_seq()[i]).key() == v.key()
                    && final(self).entries_seq() == old(self).entries_seq().update(i, v),
            final(self).entries_seq().len() <= old(self).entries_seq().len() + 1,
    {
        proof {
            lemma_assoc_contains(self.entries_seq(), k@);
        }
        match self.find(k) {
            Some(i) => {
                proof {
                    lemma_assoc_update(self.entries_seq(), i as int, v);
                }
                self.entries.set(i, v);
                proof {
                    assert(final(self).entries_seq() =~= old(self).entries_seq().update(i as int, v));
                }
                proof {
                    assert forall|a: int|
                        0 <= a < self.entries_seq().len()
                        implies (#[trigger] self.entries_seq()[a]).key()
                            == old(self).entries_seq()[a].key() by {
                        if a == i {
                            assert(self.entries_seq()[a] == v);
                        }
                    }
                }
            },
            None => {
                proof {
                    lemma_assoc_push(self.entries_seq(), v);
                }
                self.entries.push(v);
            },
        }
    }

    /// The entries, in insertion order.
    pub fn entries(&self) -> (r: &Vec<V>)
        ensures
            r@ == self.entries_seq(),
    {
        &self.entries
    }

    /// The entry at position `i` of the insertion order.
    pub fn entry_at(&self, i: usize) -> (r: &V)
        requires
            i < self.entries_seq().len(),
        ensures
            *r == self.entries_seq()[i as int],
    {
        &self.entries[i]
    }
}

} // verus!

//! A map from strings to strings kept as an association list: a later
//! binding of a key hides the earlier ones.

use crate::text::str_eq;
use vstd::prelude::*;

verus! {

pub type PairsModel = Seq<(Seq<char>, Seq<char>)>;

/// The value bound to `k`: the last binding of that key.
pub open spec fn pairs_lookup(entries: PairsModel, k: Seq<char>) -> Option<Seq<char>>
    decreases entries.len(),
{
    if entries.len() == 0 {
        None
    } else if entries.last().0 == k {
        Some(entries.last().1)
    } else {
        pairs_lookup(entries.drop_last(), k)
    }
}

/// A lookup after a push finds the pushed binding first.
pub proof fn lemma_lookup_push(a: PairsModel, x: (Seq<char>, Seq<char>), k: Seq<char>)
    ensures
        pairs_lookup(a.push(x), k) == if x.0 == k { Some(x.1) } else { pairs_lookup(a, k) },
{
    assert(a.push(x).drop_last() =~= a);
    assert(a.push(x).last() == x);
}

/// A lookup in a concatenation finds the later part's binding first.
pub proof fn lemma_lookup_concat(a: PairsModel, b: PairsModel, k: Seq<char>)
    ensures
        pairs_lookup(a + b, k) == match pairs_lookup(b, k) {
            Some(v) => Some(v),
            None => pairs_lookup(a, k),
        },
    decreases b.len(),
{
    if b.len() == 0 {
        assert(a + b =~= a);
    } else {
        assert((a + b).drop_last() =~= a + b.drop_last());
        assert((a + b).last() == b.last());
        lemma_lookup_concat(a, b.drop_last(), k);
    }
}

/// A string-to-string map.
#[derive(Debug, PartialEq)]
pub struct StringMap {
    pub entries: Vec<(String, String)>,
}

pub open spec fn pairs_model(entries: Seq<(String, String)>) -> PairsModel {
    entries.map_values(|p: (String, String)| (p.0@, p.1@))
}

impl StringMap {
    pub open spec fn model(&self) -> PairsModel {
        pairs_model(self.entries@)
    }

    pub open spec fn spec_get(&self, k: Seq<char>) -> Option<Seq<char>> {
        pairs_lookup(self.model(), k)
    }

    /// An empty map.
    pub fn new() -> (r: StringMap)
        ensures
            r.model().len() == 0,
    {
        let r = StringMap { entries: Vec::new() };
        assert(r.model() =~= Seq::<(Seq<char>, Seq<char>)>::empty());
        r
    }

    /// Binds `k` to `v`.
    pub fn insert(&mut self, k: String, v: String)
        ensures
            final(self).model() == old(self).model().push((k@, v@)),
    {
        self.entries.push((k, v));
        assert(self.model() =~= old(self).model().push((k@, v@)));
    }

    /// The value bound to `k`.
    pub fn get(&self, k: &str) -> (r: Option<&String>)
        ensures
            match self.spec_get(k@) {
                Some(v) => r matches Some(s) && s@ == v,
                None => r is None,
            },
    {
        let mut i = self.entries.len();
        assert(self.model().take(i as int) =~= self.model());
        while i > 0
            invariant
                i <= self.entries.len(),
                self.spec_get(k@) == pairs_lookup(self.model().take(i as int), k@),
            decreases i,
        {
            let ghost m = self.model().take(i as int);
            assert(m.drop_last() =~= self.model().take(i - 1));
            assert(m.last() == (self.entries@[i - 1].0@, self.entries@[i - 1].1@));
            if str_eq(self.entries[i - 1].0.as_str(), k) {
                return Some(&self.entries[i - 1].1);
            }
            i = i - 1;
        }
        None
    }

    /// Whether `k` is bound.
    pub fn contains_key(&self, k: &str) -> (r: bool)
        ensures
            r == self.spec_get(k@).is_some(),
    {
        self.get(k).is_some()
    }

    /// Binds `k` to `v` unless `k` is already bound (`entry(k).or_insert(v)`).
    pub fn insert_if_absent(&mut self, k: String, v: String)
        ensures
            old(self).spec_get(k@) is Some ==> final(self).model() == old(self).model(),
            old(self).spec_get(k@) is None ==> final(self).model() == old(self).model().push((k@, v@)),
    {
        if !self.contains_key(k.as_str()) {
            self.insert(k, v);
        }
    }

    /// A copy of the map.
    pub fn duplicate(&self) -> (r: StringMap)
        ensures
            r.model() == self.model(),
    {
        let mut out = StringMap::new();
        let mut i: usize = 0;
        while i < self.entries.len()
            invariant
                i <= self.entries@.len(),
                out.model() == self.model().take(i as int),
            decreases self.entries.len() - i,
        {
            out.insert(self.entries[i].0.clone(), self.entries[i].1.clone());
            assert(self.model().take(i + 1) =~= self.model().take(i as int).push(self.model()[i as int]));
            i = i + 1;
        }
        assert(self.model().take(self.entries@.len() as int) =~= self.model());
        out
    }

    /// Appends copies of all of `other`'s bindings, in order.
    pub fn extend_from(&mut self, other: &StringMap)
        ensures
            final(self).model() == old(self).model() + other.model(),
    {
        let mut i: usize = 0;
        while i < other.entries.len()
            invariant
                i <= other.entries@.len(),
                self.model() == old(self).model() + other.model().take(i as int),
            decreases other.entries.len() - i,
        {
            self.insert(other.entries[i].0.clone(), other.entries[i].1.clone());
            assert(other.model().take(i + 1) =~= other.model().take(i as int).push(other.model()[i as int]));
            assert(old(self).model() + other.model().take(i + 1) =~= (old(self).model() + other.model().take(i as int)).push(other.model()[i as int]));
            i = i + 1;
        }
        assert(other.model().take(other.entries@.len() as int) =~= other.model());
    }
}

} // verus!

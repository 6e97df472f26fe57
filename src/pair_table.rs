//! A table keyed by a pair whose first half is an entity.
use std::collections::HashMap;
use std::hash::Hash;
use vstd::prelude::*;
use vstd::std_specs::hash::obeys_key_model;

verus! {

broadcast use vstd::std_specs::hash::group_hash_axioms;

/// A map from `(entity, K)` to `V`, kept as one inner map per entity.
#[derive(Debug)]
pub struct PairTable<K, V> {
    rows: HashMap<u64, HashMap<K, V>>,
}

impl<K: Eq + Hash + Copy, V> View for PairTable<K, V> {
    type V = Map<(u64, K), V>;

    closed spec fn view(&self) -> Map<(u64, K), V> {
        Map::new(
            |k: (u64, K)| self.rows@.contains_key(k.0) && self.rows@[k.0]@.contains_key(k.1),
            |k: (u64, K)| self.rows@[k.0]@[k.1],
        )
    }
}

impl<K: Eq + Hash + Copy, V> PairTable<K, V> {
    /// The second half of the key hashes and compares as its value does.
    pub closed spec fn wf(&self) -> bool {
        obeys_key_model::<K>()
    }

    /// An empty table.
    pub fn new() -> (r: Self)
        requires
            obeys_key_model::<K>(),
        ensures
            r.wf(),
            r@ == Map::<(u64, K), V>::empty(),
    {
        let r = PairTable { rows: HashMap::new() };
        assert(r@ =~= Map::<(u64, K), V>::empty());
        r
    }

    /// Whether the table holds key `(a, b)`.
    pub fn contains(&self, a: u64, b: K) -> (r: bool)
        requires
            self.wf(),
        ensures
            r == self@.contains_key((a, b)),
    {
        match self.rows.get(&a) {
            Some(row) => row.contains_key(&b),
            None => false,
        }
    }

    /// The value under key `(a, b)`.
    pub fn get(&self, a: u64, b: K) -> (r: Option<&V>)
        requires
            self.wf(),
        ensures
            r == (if self@.contains_key((a, b)) {
                Some(&self@[(a, b)])
            } else {
                None
            }),
    {
        match self.rows.get(&a) {
            Some(row) => row.get(&b),
            None => None,
        }
    }

    /// Puts `v` under key `(a, b)`, replacing what was there.
    pub fn insert(&mut self, a: u64, b: K, v: V)
        requires
            old(self).wf(),
        ensures
            final(self).wf(),
            final(self)@ == old(self)@.insert((a, b), v),
    {
        let mut row = match self.rows.remove(&a) {
            Some(row) => row,
            None => HashMap::new(),
        };
        row.insert(b, v);
        self.rows.insert(a, row);
        assert(self@ =~= old(self)@.insert((a, b), v));
    }

    /// Takes key `(a, b)` out of the table and returns what it held.
    pub fn remove(&mut self, a: u64, b: K) -> (r: Option<V>)
        requires
            old(self).wf(),
        ensures
            final(self).wf(),
            final(self)@ == old(self)@.remove((a, b)),
            r == (if old(self)@.contains_key((a, b)) {
                Some(old(self)@[(a, b)])
            } else {
                None
            }),
    {
        match self.rows.remove(&a) {
            Some(mut row) => {
                let r = row.remove(&b);
                self.rows.insert(a, row);
                assert(self@ =~= old(self)@.remove((a, b)));
                r
            },
            None => {
                assert(self@ =~= old(self)@.remove((a, b)));
                None
            },
        }
    }

    /// Empties the table.
    pub fn clear(&mut self)
        requires
            old(self).wf(),
        ensures
            final(self).wf(),
            final(self)@ == Map::<(u64, K), V>::empty(),
    {
        self.rows.clear();
        assert(self@ =~= Map::<(u64, K), V>::empty());
    }

    /// The inner maps, one per entity, for a caller that walks the table.
    pub fn rows(&self) -> (r: &HashMap<u64, HashMap<K, V>>)
        ensures
            forall|a: u64, b: K|
                #![trigger self@.contains_key((a, b))]
                self@.contains_key((a, b)) <==> r@.contains_key(a) && r@[a]@.contains_key(b),
            forall|a: u64, b: K| #[trigger]
                self@.contains_key((a, b)) ==> r@[a]@[b] == self@[(a, b)],
    {
        &self.rows
    }
}

} // verus!

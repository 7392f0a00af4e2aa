//! Finite maps held as association lists: `StrMap` keyed by text and
//! `IdMap` keyed by numeric ids.
use vstd::prelude::*;
use crate::assoc::{keys_distinct, lemma_to_map_dom, lemma_to_map_index, lemma_to_map_len, lemma_to_map_push, lemma_to_map_remove, lemma_to_map_update, to_map};
use crate::text::str_eq;

verus! {

/// A map from text keys to values.
pub struct StrMap<V> {
    entries: Vec<(String, V)>,
}

impl<V> StrMap<V> {
    /// The pairs of the map, keys taken as text.
    pub closed spec fn pairs(&self) -> Seq<(Seq<char>, V)> {
        self.entries@.map_values(|e: (String, V)| (e.0@, e.1))
    }

    /// The map's keys are distinct.
    pub closed spec fn wf(&self) -> bool {
        keys_distinct(self.pairs())
    }

    /// The map's contents.
    pub closed spec fn map(&self) -> Map<Seq<char>, V> {
        to_map(self.pairs())
    }

    /// The number of entries.
    pub closed spec fn size(&self) -> nat {
        self.entries@.len()
    }

    /// The key of the entry at index `i`.
    pub closed spec fn key(&self, i: int) -> Seq<char> {
        self.entries@[i].0@
    }

    /// The keys of the entries at the indices are those of the map.
    pub proof fn lemma_keys(&self)
        requires
            self.wf(),
        ensures
            forall|i: int| 0 <= i < self.size() ==> #[trigger] self.map().contains_key(self.key(i)),
            forall|k: Seq<char>| #[trigger] self.map().contains_key(k) ==> exists|i: int| 0 <= i < self.size() && self.key(i) == k,
            self.map().dom().finite(),
            self.map().dom().len() == self.size(),
    {
        assert forall|i: int| 0 <= i < self.size() implies #[trigger] self.map().contains_key(self.key(i)) by {
            lemma_to_map_index(self.pairs(), i);
        }
        assert forall|k: Seq<char>| #[trigger] self.map().contains_key(k) implies exists|i: int| 0 <= i < self.size() && self.key(i) == k by {
            lemma_to_map_dom(self.pairs(), k);
            let i = choose|i: int| 0 <= i < self.pairs().len() && self.pairs()[i].0 == k;
            assert(self.key(i) == k);
        }
        lemma_to_map_len(self.pairs());
    }

    /// Entries at different indices have different keys.
    pub proof fn lemma_distinct_keys(&self, i: int, j: int)
        requires
            self.wf(),
            0 <= i < self.size(),
            0 <= j < self.size(),
            i != j,
        ensures
            self.key(i) != self.key(j),
    {
        assert(self.pairs()[i].0 == self.key(i));
        assert(self.pairs()[j].0 == self.key(j));
    }

    /// Creates an empty map.
    pub fn new() -> (res: Self)
        ensures
            res.wf(),
            res.map() == Map::<Seq<char>, V>::empty(),
            res.size() == 0,
    {
        let res = StrMap { entries: Vec::new() };
        assert(res.pairs() =~= Seq::empty());
        res
    }

    /// Returns the number of entries.
    pub fn len(&self) -> (res: usize)
        ensures
            res == self.size(),
    {
        self.entries.len()
    }

    /// Returns the key of the entry at index `i`.
    pub fn key_at(&self, i: usize) -> (res: &str)
        requires
            i < self.size(),
        ensures
            res@ == self.key(i as int),
    {
        self.entries[i].0.as_str()
    }

    /// Returns the value of the entry at index `i`.
    pub fn value_at(&self, i: usize) -> (res: &V)
        requires
            self.wf(),
            i < self.size(),
        ensures
            self.map().contains_key(self.key(i as int)),
            *res == self.map()[self.key(i as int)],
    {
        proof { lemma_to_map_index(self.pairs(), i as int); }
        &self.entries[i].1
    }

    /// Returns the index of the entry with key `k`.
    pub fn find(&self, k: &str) -> (res: Option<usize>)
        requires
            self.wf(),
        ensures
            match res {
                Some(i) => i < self.size() && self.key(i as int) == k@ && self.map().contains_key(k@)
                    && self.map()[k@] == self.pairs()[i as int].1,
                None => !self.map().contains_key(k@),
            },
    {
        let mut i: usize = 0;
        while i < self.entries.len()
            invariant
                self.wf(),
                i <= self.entries@.len(),
                forall|j: int| 0 <= j < i ==> self.pairs()[j].0 != k@,
            decreases self.entries@.len() - i,
        {
            if str_eq(self.entries[i].0.as_str(), k) {
                proof { lemma_to_map_index(self.pairs(), i as int); }
                return Some(i);
            }
            i = i + 1;
        }
        proof { lemma_to_map_dom(self.pairs(), k@); }
        None
    }

    /// Returns true if the map holds the key `k`.
    pub fn contains_key(&self, k: &str) -> (res: bool)
        requires
            self.wf(),
        ensures
            res == self.map().contains_key(k@),
    {
        self.find(k).is_some()
    }

    /// Returns the value of the key `k`.
    pub fn get(&self, k: &str) -> (res: Option<&V>)
        requires
            self.wf(),
        ensures
            match res {
                Some(v) => self.map().contains_key(k@) && *v == self.map()[k@],
                None => !self.map().contains_key(k@),
            },
    {
        match self.find(k) {
            Some(i) => Some(&self.entries[i].1),
            None => None,
        }
    }

    /// Sets the value of the key `k`.
    pub fn insert(&mut self, k: String, v: V)
        requires
            old(self).wf(),
        ensures
            final(self).wf(),
            final(self).map() == old(self).map().insert(k@, v),
    {
        match self.find(k.as_str()) {
            Some(i) => {
                proof { lemma_to_map_update(self.pairs(), i as int, v); }
                let ghost before = self.pairs();
                self.entries.set(i, (k, v));
                assert(self.pairs() =~= before.update(i as int, (before[i as int].0, v)));
            }
            None => {
                proof { lemma_to_map_push(self.pairs(), k@, v); }
                let ghost before = self.pairs();
                let ghost kv = k@;
                self.entries.push((k, v));
                assert(self.pairs() =~= before.push((kv, v)));
            }
        }
    }

    /// Removes the key `k`; returns its value.
    pub fn remove(&mut self, k: &str) -> (res: Option<V>)
        requires
            old(self).wf(),
        ensures
            final(self).wf(),
            final(self).map() == old(self).map().remove(k@),
            match res {
                Some(v) => old(self).map().contains_key(k@) && v == old(self).map()[k@],
                None => !old(self).map().contains_key(k@),
            },
    {
        match self.find(k) {
            Some(i) => {
                proof { lemma_to_map_remove(self.pairs(), i as int); }
                let ghost before = self.pairs();
                let (_, v) = self.entries.remove(i);
                assert(self.pairs() =~= before.remove(i as int));
                Some(v)
            }
            None => {
                assert(old(self).map().remove(k@) =~= old(self).map());
                None
            }
        }
    }
}

impl<V> StrMap<V> {
    /// Removes the entries whose value the test `f` accepts and returns
    /// them; each entry that stays was tested and refused.
    pub fn take_where<F: Fn(&V) -> bool>(&mut self, f: F) -> (removed: Vec<(String, V)>)
        requires
            old(self).wf(),
            forall|v: &V| #[trigger] f.requires((v,)),
        ensures
            final(self).wf(),
            forall|k: Seq<char>| #[trigger] final(self).map().contains_key(k) ==> old(self).map().contains_key(k)
                && final(self).map()[k] == old(self).map()[k] && f.ensures((&old(self).map()[k],), false),
            forall|t: int| 0 <= t < removed@.len() ==> old(self).map().contains_key(#[trigger] removed@[t].0@)
                && removed@[t].1 == old(self).map()[removed@[t].0@] && f.ensures((&removed@[t].1,), true)
                && !final(self).map().contains_key(removed@[t].0@),
            forall|k: Seq<char>| #[trigger] old(self).map().contains_key(k) ==> final(self).map().contains_key(k)
                || exists|t: int| 0 <= t < removed@.len() && #[trigger] removed@[t].0@ == k,
    {
        let ghost om = self.map();
        let mut removed: Vec<(String, V)> = Vec::new();
        let mut i: usize = 0;
        while i < self.entries.len()
            invariant
                forall|v: &V| #[trigger] f.requires((v,)),
                self.wf(),
                i <= self.size(),
                forall|j: int| 0 <= j < i ==> f.ensures((&#[trigger] self.pairs()[j].1,), false),
                forall|k: Seq<char>| #[trigger] self.map().contains_key(k) ==> om.contains_key(k) && self.map()[k] == om[k],
                forall|t: int| 0 <= t < removed@.len() ==> om.contains_key(#[trigger] removed@[t].0@)
                    && removed@[t].1 == om[removed@[t].0@] && f.ensures((&removed@[t].1,), true)
                    && !self.map().contains_key(removed@[t].0@),
                forall|k: Seq<char>| #[trigger] om.contains_key(k) ==> self.map().contains_key(k)
                    || exists|t: int| 0 <= t < removed@.len() && #[trigger] removed@[t].0@ == k,
            decreases self.entries@.len() - i,
        {
            let hit = f(&self.entries[i].1);
            if hit {
                let ghost before = self.pairs();
                let ghost bm = self.map();
                proof {
                    lemma_to_map_remove(before, i as int);
                    lemma_to_map_index(before, i as int);
                }
                let entry = self.entries.remove(i);
                assert(self.pairs() =~= before.remove(i as int));
                let ghost key = entry.0@;
                let ghost n = removed@.len();
                let ghost rb = removed@;
                removed.push(entry);
                assert(removed@.subrange(0, n as int) =~= rb);
                assert(removed@[n as int].0@ == key);
                assert forall|k: Seq<char>| #[trigger] om.contains_key(k) implies self.map().contains_key(k)
                    || exists|t: int| 0 <= t < removed@.len() && #[trigger] removed@[t].0@ == k by {
                    if !self.map().contains_key(k) {
                        if k == key {
                            assert(removed@[n as int].0@ == k);
                        } else {
                            assert(!bm.contains_key(k));
                            let t = choose|t: int| 0 <= t < rb.len() && #[trigger] rb[t].0@ == k;
                            assert(removed@[t] == rb[t]);
                            assert(removed@[t].0@ == k);
                        }
                    }
                }
            } else {
                i = i + 1;
            }
        }
        proof {
            assert forall|k: Seq<char>| #[trigger] self.map().contains_key(k) implies f.ensures((&om[k],), false) by {
                lemma_to_map_dom(self.pairs(), k);
                let j = choose|j: int| 0 <= j < self.pairs().len() && self.pairs()[j].0 == k;
                lemma_to_map_index(self.pairs(), j);
                assert(f.ensures((&self.pairs()[j].1,), false));
            }
        }
        removed
    }

    /// Replaces the value of the entry at index `i`, keeping every key and
    /// its index; returns the value that was there.
    pub fn replace_at(&mut self, i: usize, v: V) -> (res: V)
        requires
            old(self).wf(),
            i < old(self).size(),
        ensures
            final(self).wf(),
            final(self).size() == old(self).size(),
            forall|j: int| 0 <= j < old(self).size() ==> #[trigger] final(self).key(j) == old(self).key(j),
            final(self).map() == old(self).map().insert(old(self).key(i as int), v),
            old(self).map().contains_key(old(self).key(i as int)),
            res == old(self).map()[old(self).key(i as int)],
    {
        let ghost before = self.pairs();
        proof {
            lemma_to_map_update(before, i as int, v);
            lemma_to_map_index(before, i as int);
        }
        let (k, old_v) = self.entries.remove(i);
        self.entries.insert(i, (k, v));
        assert(self.pairs() =~= before.update(i as int, (before[i as int].0, v)));
        old_v
    }
}

/// A map from numeric ids to values.
pub struct IdMap<V> {
    entries: Vec<(usize, V)>,
}

impl<V> IdMap<V> {
    /// The pairs of the map.
    pub closed spec fn pairs(&self) -> Seq<(usize, V)> {
        self.entries@
    }

    /// The map's keys are distinct.
    pub closed spec fn wf(&self) -> bool {
        keys_distinct(self.pairs())
    }

    /// The map's contents.
    pub closed spec fn map(&self) -> Map<usize, V> {
        to_map(self.pairs())
    }

    /// The entries of the map, in their order.
    pub open spec fn entry_seq(&self) -> Seq<(usize, V)> {
        self.pairs()
    }

    /// The entries are the map.
    pub proof fn lemma_entries(&self)
        requires
            self.wf(),
        ensures
            forall|i: int| 0 <= i < self.entry_seq().len() ==> #[trigger] self.map().contains_key(self.entry_seq()[i].0)
                && self.map()[self.entry_seq()[i].0] == self.entry_seq()[i].1,
            forall|k: usize| #[trigger] self.map().contains_key(k) ==> exists|i: int| 0 <= i < self.entry_seq().len() && self.entry_seq()[i].0 == k,
    {
        assert forall|i: int| 0 <= i < self.entry_seq().len() implies #[trigger] self.map().contains_key(self.entry_seq()[i].0)
            && self.map()[self.entry_seq()[i].0] == self.entry_seq()[i].1 by {
            lemma_to_map_index(self.pairs(), i);
        }
        assert forall|k: usize| #[trigger] self.map().contains_key(k) implies exists|i: int| 0 <= i < self.entry_seq().len() && self.entry_seq()[i].0 == k by {
            lemma_to_map_dom(self.pairs(), k);
            let i = choose|i: int| 0 <= i < self.pairs().len() && self.pairs()[i].0 == k;
            assert(self.entry_seq()[i].0 == k);
        }
    }

    /// The map has one key for each entry.
    pub proof fn lemma_len(&self)
        requires
            self.wf(),
        ensures
            self.map().dom().finite(),
            self.map().dom().len() == self.entry_seq().len(),
    {
        lemma_to_map_len(self.pairs());
    }

    /// Creates an empty map.
    pub fn new() -> (res: Self)
        ensures
            res.wf(),
            res.map() == Map::<usize, V>::empty(),
            res.entry_seq().len() == 0,
    {
        IdMap { entries: Vec::new() }
    }

    /// Returns the entries in their order.
    pub fn entries(&self) -> (res: &Vec<(usize, V)>)
        ensures
            res@ == self.entry_seq(),
    {
        &self.entries
    }

    /// Returns the index of the entry with key `k`.
    pub fn find(&self, k: usize) -> (res: Option<usize>)
        requires
            self.wf(),
        ensures
            match res {
                Some(i) => i < self.pairs().len() && self.pairs()[i as int].0 == k && self.map().contains_key(k)
                    && self.map()[k] == self.pairs()[i as int].1,
                None => !self.map().contains_key(k),
            },
    {
        let mut i: usize = 0;
        while i < self.entries.len()
            invariant
                self.wf(),
                i <= self.entries@.len(),
                forall|j: int| 0 <= j < i ==> self.pairs()[j].0 != k,
            decreases self.entries@.len() - i,
        {
            if self.entries[i].0 == k {
                proof { lemma_to_map_index(self.pairs(), i as int); }
                return Some(i);
            }
            i = i + 1;
        }
        proof { lemma_to_map_dom(self.pairs(), k); }
        None
    }

    /// Returns the value of the key `k`.
    pub fn get(&self, k: usize) -> (res: Option<&V>)
        requires
            self.wf(),
        ensures
            match res {
                Some(v) => self.map().contains_key(k) && *v == self.map()[k],
                None => !self.map().contains_key(k),
            },
    {
        match self.find(k) {
            Some(i) => Some(&self.entries[i].1),
            None => None,
        }
    }

    /// Returns true if the map holds the key `k`.
    pub fn contains_key(&self, k: usize) -> (res: bool)
        requires
            self.wf(),
        ensures
            res == self.map().contains_key(k),
    {
        self.find(k).is_some()
    }

    /// Sets the value of the key `k`.
    pub fn insert(&mut self, k: usize, v: V)
        requires
            old(self).wf(),
        ensures
            final(self).wf(),
            final(self).map() == old(self).map().insert(k, v),
    {
        match self.find(k) {
            Some(i) => {
                proof { lemma_to_map_update(self.pairs(), i as int, v); }
                self.entries.set(i, (k, v));
            }
            None => {
                proof { lemma_to_map_push(self.pairs(), k, v); }
                self.entries.push((k, v));
            }
        }
    }

    /// Removes the key `k`; returns its value.
    pub fn remove(&mut self, k: usize) -> (res: Option<V>)
        requires
            old(self).wf(),
        ensures
            final(self).wf(),
            final(self).map() == old(self).map().remove(k),
            match res {
                Some(v) => old(self).map().contains_key(k) && v == old(self).map()[k],
                None => !old(self).map().contains_key(k),
            },
    {
        match self.find(k) {
            Some(i) => {
                proof { lemma_to_map_remove(self.pairs(), i as int); }
                let (_, v) = self.entries.remove(i);
                Some(v)
            }
            None => {
                assert(old(self).map().remove(k) =~= old(self).map());
                None
            }
        }
    }
}

} // verus!

//! Maps from control identifiers to what a camera keeps for each control.
//!
//! A [`CtrlMap`] is a finite map keyed by [`GenCamCtrl`]. It is kept as a list
//! of entries in which no identifier occurs twice; an entry keeps its place for
//! as long as it is in the map.
use crate::controls::GenCamCtrl;
use vstd::prelude::*;

verus! {

/// A finite map from control identifiers to values of type `V`.
#[derive(Debug, PartialEq, Eq)]
pub struct CtrlMap<V> {
    keys: Vec<GenCamCtrl>,
    vals: Vec<V>,
}

impl<V> View for CtrlMap<V> {
    type V = Map<GenCamCtrl, V>;

    closed spec fn view(&self) -> Map<GenCamCtrl, V> {
        Map::new(
            |k: GenCamCtrl| self.keys@.contains(k),
            |k: GenCamCtrl| self.vals@[self.keys@.index_of(k)],
        )
    }
}

impl<V> CtrlMap<V> {
    #[verifier::type_invariant]
    spec fn well_formed(self) -> bool {
        &&& self.keys@.len() == self.vals@.len()
        &&& self.keys@.no_duplicates()
    }

    /// The identifiers of the entries, in the order in which they are kept.
    pub closed spec fn key_seq(self) -> Seq<GenCamCtrl> {
        self.keys@
    }

    /// The values of the entries, in the order in which they are kept.
    pub closed spec fn value_seq(self) -> Seq<V> {
        self.vals@
    }

    /// The entries are the map: each identifier of the list is in the map with
    /// the value at its place, and the map has no other identifier.
    proof fn lemma_entries(self)
        requires
            self.well_formed(),
        ensures
            self@.dom() == self.key_seq().to_set(),
            self@.dom().finite(),
            self@.len() == self.key_seq().len(),
            forall|i: int|
                0 <= i < self.key_seq().len() ==> self@[#[trigger] self.key_seq()[i]]
                    == self.value_seq()[i],
    {
        assert(self@.dom() =~= self.keys@.to_set());
        self.keys@.unique_seq_to_set();
        assert forall|i: int| 0 <= i < self.keys@.len() implies self@[#[trigger] self.keys@[i]]
            == self.vals@[i] by {
            let k = self.keys@[i];
            assert(self.keys@.contains(k));
            let j = self.keys@.index_of(k);
            assert(self.keys@[j] == k);
        }
    }

    /// An empty map.
    pub fn new() -> (r: Self)
        ensures
            r@ == Map::<GenCamCtrl, V>::empty(),
    {
        let r = CtrlMap { keys: Vec::new(), vals: Vec::new() };
        assert(r@ =~= Map::<GenCamCtrl, V>::empty());
        r
    }

    /// The number of entries. Each entry has a place below that number, and
    /// no two places hold the same identifier.
    pub fn len(&self) -> (r: usize)
        ensures
            r == self@.len(),
            r == self.key_seq().len(),
            r == self.value_seq().len(),
            self.key_seq().no_duplicates(),
            forall|k: GenCamCtrl| self@.contains_key(k) <==> self.key_seq().contains(k),
    {
        proof {
            use_type_invariant(self);
            self.lemma_entries();
            assert forall|k: GenCamCtrl| self@.contains_key(k) <==> self.key_seq().contains(
                k,
            ) by {
                assert(self@.dom().contains(k) <==> self.key_seq().to_set().contains(k));
            }
        }
        self.keys.len()
    }

    fn position(&self, key: &GenCamCtrl) -> (r: Option<usize>)
        ensures
            match r {
                Some(i) => i < self.keys@.len() && self.keys@[i as int] == *key,
                None => !self.keys@.contains(*key),
            },
    {
        let mut i: usize = 0;
        while i < self.keys.len()
            invariant
                i <= self.keys@.len(),
                forall|j: int| 0 <= j < i ==> self.keys@[j] != *key,
            decreases self.keys@.len() - i,
        {
            if self.keys[i].equals(key) {
                return Some(i);
            }
            i += 1;
        }
        None
    }

    /// Whether the map has an entry for `key`.
    pub fn contains_key(&self, key: &GenCamCtrl) -> (r: bool)
        ensures
            r == self@.contains_key(*key),
    {
        self.position(key).is_some()
    }

    /// The value kept for `key`.
    pub fn get(&self, key: &GenCamCtrl) -> (r: Option<&V>)
        ensures
            match r {
                Some(v) => self@.contains_key(*key) && *v == self@[*key],
                None => !self@.contains_key(*key),
            },
    {
        proof {
            use_type_invariant(self);
            self.lemma_entries();
        }
        match self.position(key) {
            Some(i) => Some(&self.vals[i]),
            None => None,
        }
    }

    /// Keeps `value` for `key`, and gives back what was kept for it before.
    pub fn insert(&mut self, key: GenCamCtrl, value: V) -> (r: Option<V>)
        ensures
            final(self)@ == old(self)@.insert(key, value),
            match r {
                Some(v) => old(self)@.contains_key(key) && v == old(self)@[key],
                None => !old(self)@.contains_key(key),
            },
    {
        proof {
            use_type_invariant(&*self);
            self.lemma_entries();
        }
        let ghost before = *self;
        let found = self.position(&key);
        let mut taken = CtrlMap::new();
        std::mem::swap(self, &mut taken);
        let CtrlMap { keys, vals } = taken;
        let mut keys = keys;
        let mut vals = vals;
        match found {
            Some(i) => {
                vals.push(value);
                let previous = vals.swap_remove(i);
                assert(vals@ =~= before.vals@.update(i as int, value));
                *self = CtrlMap { keys, vals };
                assert(self@ =~= before@.insert(key, value)) by {
                    assert forall|k: GenCamCtrl| self@.contains_key(k) implies #[trigger] self@[k]
                        == before@.insert(key, value)[k] by {
                        let j = self.keys@.index_of(k);
                        assert(self.keys@[j] == k);
                    }
                }
                Some(previous)
            },
            None => {
                keys.push(key);
                vals.push(value);
                assert(keys@ =~= before.keys@.push(key));
                assert(keys@.no_duplicates());
                *self = CtrlMap { keys, vals };
                assert(self@ =~= before@.insert(key, value)) by {
                    assert forall|k: GenCamCtrl|
                        self@.contains_key(k) <==> before@.insert(key, value).contains_key(
                            k,
                        ) by {
                        if k == key {
                            assert(self.keys@[before.keys@.len() as int] == key);
                        } else if before.keys@.contains(k) {
                            let j = before.keys@.index_of(k);
                            assert(self.keys@[j] == k);
                        }
                    }
                    assert forall|k: GenCamCtrl| self@.contains_key(k) implies #[trigger] self@[k]
                        == before@.insert(key, value)[k] by {
                        let j = self.keys@.index_of(k);
                        assert(self.keys@[j] == k);
                        if k != key {
                            let j0 = before.keys@.index_of(k);
                            assert(before.keys@[j0] == k);
                            assert(self.keys@[j0] == k);
                        }
                    }
                }
                None
            },
        }
    }

    /// The identifier of the entry at place `i`.
    pub fn key_at(&self, i: usize) -> (r: GenCamCtrl)
        requires
            i < self.key_seq().len(),
        ensures
            r == self.key_seq()[i as int],
            self@.contains_key(r),
    {
        proof {
            use_type_invariant(self);
            self.lemma_entries();
        }
        assert(self.keys@.contains(self.keys@[i as int]));
        self.keys[i]
    }

    /// The value of the entry at place `i`.
    pub fn value_at(&self, i: usize) -> (r: &V)
        requires
            i < self.key_seq().len(),
        ensures
            *r == self.value_seq()[i as int],
            *r == self@[self.key_seq()[i as int]],
    {
        proof {
            use_type_invariant(self);
            self.lemma_entries();
        }
        &self.vals[i]
    }
}


impl<V: Clone> Clone for CtrlMap<V> {
    /// A map with the same identifiers in the same order, and with a clone of
    /// each value.
    fn clone(&self) -> (r: Self)
        ensures
            r.key_seq() == self.key_seq(),
            r@.dom() == self@.dom(),
            forall|k: GenCamCtrl| #[trigger] r@.contains_key(k) ==> cloned::<V>(self@[k], r@[k]),
    {
        proof {
            use_type_invariant(self);
            self.lemma_entries();
        }
        let mut keys: Vec<GenCamCtrl> = Vec::new();
        let mut vals: Vec<V> = Vec::new();
        let mut i: usize = 0;
        while i < self.keys.len()
            invariant
                i <= self.keys@.len(),
                self.keys@.len() == self.vals@.len(),
                keys@.len() == i,
                vals@.len() == i,
                forall|j: int| 0 <= j < i ==> keys@[j] == self.keys@[j],
                forall|j: int| 0 <= j < i ==> cloned::<V>(self.vals@[j], #[trigger] vals@[j]),
            decreases self.keys@.len() - i,
        {
            keys.push(self.keys[i]);
            vals.push(self.vals[i].clone());
            i += 1;
        }
        assert(keys@ =~= self.keys@);
        let r = CtrlMap { keys, vals };
        proof {
            r.lemma_entries();
            assert(r@.dom() =~= self@.dom());
            assert forall|k: GenCamCtrl| #[trigger] r@.contains_key(k) implies cloned::<V>(
                self@[k],
                r@[k],
            ) by {
                let j = r.keys@.index_of(k);
                assert(r.keys@[j] == k);
                assert(self@[self.key_seq()[j]] == self.value_seq()[j]);
                assert(r@[r.key_seq()[j]] == r.value_seq()[j]);
            }
        }
        r
    }
}

} // verus!

//! The confidential record store: ciphertext records keyed by their 32-byte
//! domain id.
//!
//! A record's lifetime runs from its initialising computation until it is
//! superseded by a later one; records are never deleted in-band, only
//! overwritten. The store's abstract view is the map from each id to the most
//! recently written record under it (last write wins).

use vstd::prelude::*;

use crate::ids::bytes32_eq;

verus! {

/// The map described by a history of writes, later writes shadowing earlier
/// ones under the same key.
pub open spec fn map_of_writes<T>(keys: Seq<[u8; 32]>, vals: Seq<T>) -> Map<Seq<u8>, T>
    decreases keys.len(),
{
    if keys.len() == 0 || keys.len() != vals.len() {
        Map::empty()
    } else {
        map_of_writes(keys.drop_last(), vals.drop_last()).insert(keys.last()@, vals.last())
    }
}

/// An append-only store of keyed records. `keys[i]` names the record written
/// as `vals[i]`; a later entry under the same key supersedes an earlier one.
pub struct RecordStore<T> {
    pub keys: Vec<[u8; 32]>,
    pub vals: Vec<T>,
}

impl<T> View for RecordStore<T> {
    type V = Map<Seq<u8>, T>;

    open spec fn view(&self) -> Map<Seq<u8>, T> {
        map_of_writes(self.keys@, self.vals@)
    }
}

impl<T> RecordStore<T> {
    /// Each key names exactly one value.
    pub open spec fn wf(self) -> bool {
        self.keys@.len() == self.vals@.len()
    }

    /// An empty store.
    pub fn new() -> (r: Self)
        ensures
            r.wf(),
            r@ == Map::<Seq<u8>, T>::empty(),
    {
        RecordStore { keys: Vec::new(), vals: Vec::new() }
    }

    /// Writes a record under a key, superseding whatever the key held.
    pub fn put(&mut self, key: [u8; 32], val: T)
        requires
            old(self).wf(),
        ensures
            final(self).wf(),
            final(self)@ == old(self)@.insert(key@, val),
    {
        self.keys.push(key);
        self.vals.push(val);
        proof {
            assert(self.keys@.drop_last() =~= old(self).keys@);
            assert(self.vals@.drop_last() =~= old(self).vals@);
        }
    }
}

/// Writing twice under one id leaves exactly the second record: the store's
/// documented last-write-wins semantics for concurrent updates of one record.
pub proof fn lemma_last_write_wins<T>(m: Map<Seq<u8>, T>, key: Seq<u8>, first: T, second: T)
    ensures
        m.insert(key, first).insert(key, second) == m.insert(key, second),
        m.insert(key, first).insert(key, second)[key] == second,
{
    assert(m.insert(key, first).insert(key, second) =~= m.insert(key, second));
}

impl<T: Copy> RecordStore<T> {
    /// The record most recently written under a key, if the key was ever
    /// written.
    pub fn get(&self, key: &[u8; 32]) -> (r: Option<T>)
        requires
            self.wf(),
        ensures
            r == if self@.contains_key(key@) {
                Some(self@[key@])
            } else {
                None::<T>
            },
    {
        let n = self.keys.len();
        let mut found: Option<T> = None;
        let mut i: usize = 0;
        while i < n
            invariant
                self.wf(),
                n == self.keys@.len(),
                i <= n,
                found == if map_of_writes(self.keys@.take(i as int), self.vals@.take(i as int))
                    .contains_key(key@) {
                    Some(
                        map_of_writes(self.keys@.take(i as int), self.vals@.take(i as int))[key@],
                    )
                } else {
                    None::<T>
                },
            decreases n - i,
        {
            proof {
                assert(self.keys@.take(i + 1).drop_last() =~= self.keys@.take(i as int));
                assert(self.vals@.take(i + 1).drop_last() =~= self.vals@.take(i as int));
                assert(self.keys@.take(i + 1).last() == self.keys@[i as int]);
                assert(self.vals@.take(i + 1).last() == self.vals@[i as int]);
            }
            if bytes32_eq(&self.keys[i], key) {
                found = Some(self.vals[i]);
            }
            i = i + 1;
        }
        proof {
            assert(self.keys@.take(n as int) =~= self.keys@);
            assert(self.vals@.take(n as int) =~= self.vals@);
        }
        found
    }
}

} // verus!

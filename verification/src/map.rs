//! The expiring store: a table of entries and a default time to live.
//!
//! Every operation that changes the table, or hands out a handle into it,
//! takes the store by `&mut`. A handle keeps part of the table locked, and a
//! call made while one is alive could wait forever; with `&mut` the compiler
//! rules that out, and the store before and after a call can be told apart.
//! A handle has to be dropped, though, not leaked with `std::mem::forget`: a
//! leaked one keeps its part of the table locked for good.
//!
//! Every operation that depends on the time comes twice: once taking the clock
//! reading as an argument, with an exact contract, and once reading the clock
//! itself, which then behaves as the first does for the reading it took.

use crate::clock::{clock_now, deadline_after};
use crate::data::Data;
use crate::model::{
    after_access, insert_outcome, inserted_at, live_part, lookup_at, removed_pair,
};
use crate::table::{
    handle_value, no_entries, shown, shown_mut, slot_entry, table_entries, table_entry,
    table_get, table_get_mut, table_insert, table_keys, table_new, table_remove,
};
use dashmap::mapref::entry::Entry;
use dashmap::mapref::one::{Ref, RefMut};
use dashmap::DashMap;
use std::time::{Duration, Instant};
use vstd::prelude::*;

verus! {

/// The default time to live, added to the clock reading, gives an instant that
/// the platform cannot represent. Nothing was stored.
#[derive(Clone, Copy, Debug, PartialEq, Eq)]
pub struct DeadlineOverflow;

/// Whether `key` stands among the first `upto` of `keys`.
spec fn swept(keys: Seq<u64>, upto: int, key: u64) -> bool {
    exists|j: int| 0 <= j < upto && keys[j] == key
}

/// A store from `u64` keys to `u64` values in which every entry expires.
pub struct TransientDashMap {
    map: DashMap<u64, Data<u64>>,
    duration: Duration,
}

impl View for TransientDashMap {
    type V = Map<u64, Data<u64>>;

    /// Every key that is physically present, with its entry.
    closed spec fn view(&self) -> Map<u64, Data<u64>> {
        table_entries(self.map)
    }
}

impl TransientDashMap {
    /// The time to live that `insert` gives to an entry.
    pub closed spec fn ttl(&self) -> Duration {
        self.duration
    }

    /// An empty store whose entries live for `duration` by default.
    pub fn new(duration: Duration) -> (store: Self)
        ensures
            store@ == no_entries(),
            store.ttl() == duration,
    {
        TransientDashMap { map: table_new(), duration }
    }

    /// Stores `value` under `key`, to expire at `expiration`, whatever was
    /// stored there. Returns the entry that was displaced, live or not.
    pub fn insert_with_expiration(
        &mut self,
        key: u64,
        value: u64,
        expiration: Instant,
    ) -> (previous: Option<Data<u64>>)
        ensures
            final(self)@ == old(self)@.insert(key, (Data { object: value, expiration })),
            previous == old(self)@.get(key),
            final(self).ttl() == old(self).ttl(),
    {
        table_insert(&mut self.map, key, Data::new(value, expiration))
    }

    /// Stores `value` under `key`, to expire one time to live after `now`.
    /// Where that instant cannot be represented, nothing is stored.
    pub fn insert_at(
        &mut self,
        key: u64,
        value: u64,
        now: Instant,
    ) -> (outcome: Result<Option<Data<u64>>, DeadlineOverflow>)
        ensures
            final(self)@ == inserted_at(old(self)@, old(self).ttl(), key, value, now),
            outcome == insert_outcome(old(self)@, old(self).ttl(), key, now),
            final(self).ttl() == old(self).ttl(),
    {
        match deadline_after(now, self.duration) {
            Some(expiration) => Ok(self.insert_with_expiration(key, value, expiration)),
            None => Err(DeadlineOverflow),
        }
    }

    /// Stores `value` under `key`, to expire one time to live from now. The
    /// store ends as `insert_at` leaves it for the clock reading taken during
    /// the call.
    pub fn insert(
        &mut self,
        key: u64,
        value: u64,
    ) -> (outcome: Result<Option<Data<u64>>, DeadlineOverflow>)
        ensures
            exists|now: Instant|
                final(self)@ == #[trigger] inserted_at(old(self)@, old(self).ttl(), key, value, now)
                    && outcome == insert_outcome(old(self)@, old(self).ttl(), key, now),
            final(self).ttl() == old(self).ttl(),
    {
        let now = clock_now();
        self.insert_at(key, value, now)
    }

    /// Removes `key`, expired or not, and returns it with its value if it was
    /// present.
    pub fn remove(&mut self, key: &u64) -> (removed: Option<(u64, u64)>)
        ensures
            final(self)@ == old(self)@.remove(*key),
            removed == removed_pair(old(self)@, *key),
            final(self).ttl() == old(self).ttl(),
    {
        match table_remove(&mut self.map, key) {
            Some((k, entry)) => Some((k, entry.object)),
            None => None,
        }
    }

    /// Looks `key` up when the clock reads `now`. A live entry is handed out
    /// through a read handle; an expired one is evicted and nothing is
    /// returned, as for an absent key.
    pub fn get_at(&mut self, key: &u64, now: Instant) -> (handle: Option<Ref<'_, u64, Data<u64>>>)
        ensures
            shown(handle) == lookup_at(old(self)@, *key, now),
            final(self)@ == after_access(old(self)@, *key, now),
            final(self).ttl() == old(self).ttl(),
    {
        let live = match table_get(&self.map, key) {
            Some(found) => !handle_value(&found).is_expired_at(now),
            None => {
                return None;
            },
        };
        if live {
            table_get(&self.map, key)
        } else {
            table_remove(&mut self.map, key);
            None
        }
    }

    /// Looks `key` up now. The store ends as `get_at` leaves it for the clock
    /// reading taken during the call.
    pub fn get(&mut self, key: &u64) -> (handle: Option<Ref<'_, u64, Data<u64>>>)
        ensures
            exists|now: Instant|
                shown(handle) == #[trigger] lookup_at(old(self)@, *key, now)
                    && final(self)@ == after_access(old(self)@, *key, now),
            final(self).ttl() == old(self).ttl(),
    {
        let now = clock_now();
        self.get_at(key, now)
    }

    /// Looks `key` up when the clock reads `now`, for writing. A live entry is
    /// handed out through a write handle, whose holder may replace it: once
    /// the handle is gone the key is still present, with whatever entry the
    /// holder left, and no other key has changed. An expired entry is evicted
    /// and nothing is returned, as for an absent key.
    pub fn get_mut_at(
        &mut self,
        key: &u64,
        now: Instant,
    ) -> (handle: Option<RefMut<'_, u64, Data<u64>>>)
        ensures
            shown_mut(handle) == lookup_at(old(self)@, *key, now),
            handle is None ==> final(self)@ == after_access(old(self)@, *key, now),
            handle is Some ==> final(self)@.contains_key(*key),
            handle is Some ==> final(self)@.remove(*key) == old(self)@.remove(*key),
            final(self).ttl() == old(self).ttl(),
    {
        let live = match table_get(&self.map, key) {
            Some(found) => !handle_value(&found).is_expired_at(now),
            None => {
                return None;
            },
        };
        if live {
            table_get_mut(&mut self.map, key)
        } else {
            table_remove(&mut self.map, key);
            None
        }
    }

    /// Looks `key` up now, for writing. The store ends as `get_mut_at` leaves
    /// it for the clock reading taken during the call.
    pub fn get_mut(&mut self, key: &u64) -> (handle: Option<RefMut<'_, u64, Data<u64>>>)
        ensures
            exists|now: Instant|
                shown_mut(handle) == #[trigger] lookup_at(old(self)@, *key, now)
                    && (handle is None ==> final(self)@ == after_access(old(self)@, *key, now)),
            handle is Some ==> final(self)@.contains_key(*key),
            handle is Some ==> final(self)@.remove(*key) == old(self)@.remove(*key),
            final(self).ttl() == old(self).ttl(),
    {
        let now = clock_now();
        self.get_mut_at(key, now)
    }

    /// Hands out the slot of `key` for the table's own get-or-insert access.
    /// Expiration is not looked at: the slot is occupied exactly if the key is
    /// physically present, and an expired entry is neither hidden nor evicted.
    /// The holder may fill, replace or empty the slot, and may store an entry
    /// with any expiration instant; no other key changes.
    pub fn entry(&mut self, key: u64) -> (handle: Entry<'_, u64, Data<u64>>)
        ensures
            slot_entry(handle) == old(self)@.get(key),
            final(self)@.remove(key) == old(self)@.remove(key),
            final(self).ttl() == old(self).ttl(),
    {
        table_entry(&mut self.map, key)
    }

    /// Every key that is physically present, once each, in no particular
    /// order.
    pub fn keys(&self) -> (keys: Vec<u64>)
        ensures
            keys@.no_duplicates(),
            keys@.to_set() == self@.dom(),
    {
        table_keys(&self.map)
    }

    /// Evicts every entry that is expired when the clock reads `now`, by
    /// looking up each key that is present. Live entries stay as they are.
    pub fn purge_at(&mut self, now: Instant)
        ensures
            final(self)@ == live_part(old(self)@, now),
            final(self).ttl() == old(self).ttl(),
    {
        let keys = table_keys(&self.map);
        let ghost start = self@;
        let ghost ttl = self.ttl();
        let mut i: usize = 0;
        while i < keys.len()
            invariant
                i <= keys.len(),
                keys@.to_set() == start.dom(),
                self.ttl() == ttl,
                forall|k: u64|
                    #[trigger] self@.contains_key(k) <==> start.contains_key(k) && !(swept(
                        keys@,
                        i as int,
                        k,
                    ) && start[k].expired_at(now)),
                forall|k: u64| #[trigger] self@.contains_key(k) ==> self@[k] == start[k],
            decreases keys.len() - i,
        {
            let key = keys[i];
            let ghost before = self@;
            let _ = self.get_at(&key, now);
            proof {
                assert(swept(keys@, i + 1, key)) by {
                    assert(0 <= i < i + 1 && keys@[i as int] == key);
                }
                assert forall|k: u64| k != key implies swept(keys@, i + 1, k) == swept(
                    keys@,
                    i as int,
                    k,
                ) by {
                    if swept(keys@, i as int, k) {
                        let j = choose|j: int| 0 <= j < i && keys@[j] == k;
                        assert(0 <= j < i + 1 && keys@[j] == k);
                    }
                }
                assert(keys@.to_set().contains(key));
                assert forall|k: u64|
                    #[trigger] self@.contains_key(k) <==> start.contains_key(k) && !(swept(
                        keys@,
                        i + 1,
                        k,
                    ) && start[k].expired_at(now)) by {
                    assert(before.contains_key(k) <==> start.contains_key(k) && !(swept(
                        keys@,
                        i as int,
                        k,
                    ) && start[k].expired_at(now)));
                }
            }
            i += 1;
        }
        proof {
            assert forall|k: u64| start.contains_key(k) implies swept(keys@, i as int, k) by {
                assert(keys@.to_set().contains(k));
            }
            assert(self@ =~= live_part(start, now));
        }
    }

    /// Evicts every entry that is expired now. The store ends as `purge_at`
    /// leaves it for the clock reading taken during the call.
    pub fn purge(&mut self)
        ensures
            exists|now: Instant| final(self)@ == #[trigger] live_part(old(self)@, now),
            final(self).ttl() == old(self).ttl(),
    {
        let now = clock_now();
        self.purge_at(now)
    }
}

} // verus!

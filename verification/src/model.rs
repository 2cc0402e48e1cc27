//! The store as a mathematical map, and what each operation does to it.
//!
//! The view of a store is the map from each key that is physically present to
//! its entry, expired or not. The functions here say, over such a map, what an
//! operation returns and what it leaves behind. The contracts of the store's
//! operations are written in them, and so are the laws that relate several
//! operations.

use crate::clock::instant_plus;
use crate::data::Data;
use crate::map::DeadlineOverflow;
use std::time::{Duration, Instant};
use vstd::prelude::*;

verus! {

/// The live entry under `key` when the clock reads `now`: the entry that is
/// present, unless it is absent or expired.
pub open spec fn lookup_at(
    entries: Map<u64, Data<u64>>,
    key: u64,
    now: Instant,
) -> Option<Data<u64>> {
    if entries.contains_key(key) && !entries[key].expired_at(now) {
        Some(entries[key])
    } else {
        None
    }
}

/// The table after `key` was looked up when the clock read `now`: an expired
/// entry under `key` is gone, everything else is as before.
pub open spec fn after_access(
    entries: Map<u64, Data<u64>>,
    key: u64,
    now: Instant,
) -> Map<u64, Data<u64>> {
    if entries.contains_key(key) && entries[key].expired_at(now) {
        entries.remove(key)
    } else {
        entries
    }
}

/// The entries that are live when the clock reads `now`.
pub open spec fn live_part(entries: Map<u64, Data<u64>>, now: Instant) -> Map<u64, Data<u64>> {
    Map::new(
        |key: u64| entries.contains_key(key) && !entries[key].expired_at(now),
        |key: u64| entries[key],
    )
}

/// The table after `value` was stored under `key` with the time to live `ttl`
/// when the clock read `now`. The entry expires at `now + ttl`; where that
/// instant cannot be represented, the table is as before.
pub open spec fn inserted_at(
    entries: Map<u64, Data<u64>>,
    ttl: Duration,
    key: u64,
    value: u64,
    now: Instant,
) -> Map<u64, Data<u64>> {
    match instant_plus(now, ttl) {
        Some(expiration) => entries.insert(key, Data { object: value, expiration }),
        None => entries,
    }
}

/// What storing under `key` with the time to live `ttl` returns when the
/// clock reads `now`: the entry that was displaced, expired or not, or the
/// error where `now + ttl` cannot be represented.
pub open spec fn insert_outcome(
    entries: Map<u64, Data<u64>>,
    ttl: Duration,
    key: u64,
    now: Instant,
) -> Result<Option<Data<u64>>, DeadlineOverflow> {
    match instant_plus(now, ttl) {
        Some(_) => Ok(entries.get(key)),
        None => Err(DeadlineOverflow),
    }
}

/// The key and value that removing `key` hands back.
pub open spec fn removed_pair(entries: Map<u64, Data<u64>>, key: u64) -> Option<(u64, u64)> {
    if entries.contains_key(key) {
        Some((key, entries[key].object))
    } else {
        None
    }
}

} // verus!

//! What holds of the store across several operations.
//!
//! Each law is stated over the functions that the operations' contracts are
//! written in (`lookup_at`, `after_access`, `inserted_at`, `insert_outcome`,
//! `removed_pair`, `live_part`), so it applies to any sequence of calls whose
//! contracts mention them.

use crate::clock::{instant_is_later, instant_plus};
use crate::data::Data;
use crate::model::{
    after_access, insert_outcome, inserted_at, live_part, lookup_at, removed_pair,
};
use crate::table::no_entries;
use std::time::{Duration, Instant};
use vstd::prelude::*;

verus! {

/// A key that is not present is not found, whatever the clock reads, and
/// looking it up changes nothing. In particular nothing is found in a new
/// store.
pub proof fn lemma_absent_key_reads_nothing(entries: Map<u64, Data<u64>>, key: u64, now: Instant)
    requires
        !entries.contains_key(key),
    ensures
        lookup_at(entries, key, now) is None,
        after_access(entries, key, now) == entries,
        lookup_at(no_entries(), key, now) is None,
{
}

/// A key becomes present only by being inserted: storing under another key,
/// looking a key up, removing one and purging leave an absent key absent.
pub proof fn lemma_only_insert_adds(
    entries: Map<u64, Data<u64>>,
    key: u64,
    other: u64,
    value: u64,
    ttl: Duration,
    now: Instant,
)
    requires
        !entries.contains_key(key),
        other != key,
    ensures
        !inserted_at(entries, ttl, other, value, now).contains_key(key),
        !after_access(entries, other, now).contains_key(key),
        !entries.remove(other).contains_key(key),
        !live_part(entries, now).contains_key(key),
{
}

/// An entry stored with the default time to live is found, with the value it
/// was stored with, by every lookup whose clock reading is not after the
/// entry's expiration instant, and by none whose reading is after it. The
/// expiration instant is the time to live added to the clock reading of the
/// insertion, which the law requires to be representable.
pub proof fn lemma_default_ttl_window(
    entries: Map<u64, Data<u64>>,
    ttl: Duration,
    key: u64,
    value: u64,
    stored_at: Instant,
    read_at: Instant,
)
    requires
        instant_plus(stored_at, ttl) is Some,
    ensures
        ({
            let expiration = instant_plus(stored_at, ttl).unwrap();
            let stored = inserted_at(entries, ttl, key, value, stored_at);
            &&& !instant_is_later(read_at, expiration) ==> lookup_at(stored, key, read_at) == Some(
                Data { object: value, expiration },
            )
            &&& !instant_is_later(read_at, expiration) ==> after_access(stored, key, read_at)
                == stored
            &&& instant_is_later(read_at, expiration) ==> lookup_at(stored, key, read_at) is None
        }),
{
}

/// Where the default time to live cannot be added to the clock reading,
/// storing reports the error and changes nothing.
pub proof fn lemma_deadline_overflow_stores_nothing(
    entries: Map<u64, Data<u64>>,
    ttl: Duration,
    key: u64,
    value: u64,
    now: Instant,
)
    requires
        instant_plus(now, ttl) is None,
    ensures
        inserted_at(entries, ttl, key, value, now) == entries,
        insert_outcome(entries, ttl, key, now) is Err,
{
}

/// Expiration is final. Once a lookup has met an expired entry, the key is
/// gone from the table, so it is in no enumeration of the keys, and every
/// later lookup finds nothing and changes nothing, whatever the clock reads
/// then.
pub proof fn lemma_eviction_is_final(
    entries: Map<u64, Data<u64>>,
    key: u64,
    now: Instant,
    afterwards: Instant,
    keys: Seq<u64>,
)
    requires
        entries.contains_key(key),
        entries[key].expired_at(now),
        keys.to_set() == after_access(entries, key, now).dom(),
    ensures
        lookup_at(entries, key, now) is None,
        !after_access(entries, key, now).contains_key(key),
        !keys.contains(key),
        lookup_at(after_access(entries, key, now), key, afterwards) is None,
        after_access(after_access(entries, key, now), key, afterwards) == after_access(
            entries,
            key,
            now,
        ),
{
    assert(keys.contains(key) ==> keys.to_set().contains(key));
}

/// The last insertion wins. Of two insertions under one key that was absent,
/// the first returns nothing and the second returns the entry that the first
/// stored, whether or not that entry has expired by then; a lookup before the
/// second entry expires finds the second value.
pub proof fn lemma_insert_overwrites(
    entries: Map<u64, Data<u64>>,
    ttl: Duration,
    key: u64,
    first: u64,
    second: u64,
    first_at: Instant,
    second_at: Instant,
    read_at: Instant,
)
    requires
        !entries.contains_key(key),
        instant_plus(first_at, ttl) is Some,
        instant_plus(second_at, ttl) is Some,
        !instant_is_later(read_at, instant_plus(second_at, ttl).unwrap()),
    ensures
        ({
            let once = inserted_at(entries, ttl, key, first, first_at);
            let twice = inserted_at(once, ttl, key, second, second_at);
            let first_entry = Data { object: first, expiration: instant_plus(first_at, ttl).unwrap() };
            let second_entry = Data {
                object: second,
                expiration: instant_plus(second_at, ttl).unwrap(),
            };
            &&& insert_outcome(entries, ttl, key, first_at) matches Ok(previous) && previous is None
            &&& insert_outcome(once, ttl, key, second_at) matches Ok(previous) && previous == Some(
                first_entry,
            )
            &&& lookup_at(twice, key, read_at) == Some(second_entry)
        }),
{
}

/// The same with explicit expiration instants: the second insertion displaces
/// the entry of the first, expired or not, and a lookup before the second
/// entry expires finds it.
pub proof fn lemma_insert_with_expiration_overwrites(
    entries: Map<u64, Data<u64>>,
    key: u64,
    first: Data<u64>,
    second: Data<u64>,
    read_at: Instant,
)
    requires
        !second.expired_at(read_at),
    ensures
        entries.insert(key, first).get(key) == Some(first),
        lookup_at(entries.insert(key, first).insert(key, second), key, read_at) == Some(second),
{
}

/// Removal hands back the stored value of a key that is present, expired or
/// live, and is final: afterwards the key is neither found nor removed again.
pub proof fn lemma_remove_is_final(entries: Map<u64, Data<u64>>, key: u64, now: Instant)
    requires
        entries.contains_key(key),
    ensures
        removed_pair(entries, key) == Some((key, entries[key].object)),
        lookup_at(entries.remove(key), key, now) is None,
        after_access(entries.remove(key), key, now) == entries.remove(key),
        removed_pair(entries.remove(key), key) is None,
{
}

/// Purging agrees with looking up: it evicts exactly the keys that a lookup at
/// the same clock reading would evict, so every key is found after it as it
/// would have been found before it, and a second purge changes nothing.
pub proof fn lemma_purge_keeps_the_live(entries: Map<u64, Data<u64>>, key: u64, now: Instant)
    ensures
        live_part(entries, now).contains_key(key) <==> lookup_at(entries, key, now) is Some,
        lookup_at(live_part(entries, now), key, now) == lookup_at(entries, key, now),
        live_part(live_part(entries, now), now) == live_part(entries, now),
{
    assert(live_part(live_part(entries, now), now) =~= live_part(entries, now));
}

} // verus!

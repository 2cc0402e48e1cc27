use std::time::{Duration, Instant};
use transient_dashmap::{Data, DeadlineOverflow, Entry, TransientDashMap};

const HOUR: Duration = Duration::from_secs(3600);

fn ms(n: u64) -> Duration {
    Duration::from_millis(n)
}

fn after_clock_passes(at: Instant) {
    while Instant::now() <= at {}
}

fn sorted_keys(store: &TransientDashMap) -> Vec<u64> {
    let mut keys = store.keys();
    keys.sort();
    keys
}

#[test]
fn new_store_is_empty() {
    let mut store = TransientDashMap::new(HOUR);
    assert!(store.keys().is_empty());
    assert!(store.get(&0).is_none());
    assert!(store.get(&u64::MAX).is_none());
}

#[test]
fn key_never_inserted_reads_nothing() {
    let mut store = TransientDashMap::new(HOUR);
    assert_eq!(store.insert(1, 10), Ok(None));
    assert!(store.get(&2).is_none());
    assert!(store.get_mut(&2).is_none());
    assert!(store.remove(&2).is_none());
    assert_eq!(sorted_keys(&store), vec![1]);
}

#[test]
fn insert_then_get_yields_the_value() {
    let mut store = TransientDashMap::new(HOUR);
    assert_eq!(store.insert(5, 50), Ok(None));
    let handle = store.get(&5).unwrap();
    assert_eq!(**handle, 50);
    assert_eq!(*handle.key(), 5);
    assert!(!handle.is_expired());
}

#[test]
fn insert_at_sets_expiration_to_now_plus_ttl() {
    let base = Instant::now();
    let mut store = TransientDashMap::new(ms(250));
    assert_eq!(store.insert_at(1, 10, base), Ok(None));
    let handle = store.get_at(&1, base).unwrap();
    assert_eq!(handle.expiration, base + ms(250));
    assert_eq!(handle.object, 10);
}

#[test]
fn default_ttl_window() {
    let base = Instant::now();
    let mut store = TransientDashMap::new(ms(100));
    assert_eq!(store.insert_at(1, 10, base), Ok(None));
    assert_eq!(**store.get_at(&1, base).unwrap(), 10);
    assert_eq!(**store.get_at(&1, base + ms(99)).unwrap(), 10);
    assert_eq!(**store.get_at(&1, base + ms(100)).unwrap(), 10);
    assert_eq!(sorted_keys(&store), vec![1]);
    assert!(store.get_at(&1, base + ms(100) + Duration::from_nanos(1)).is_none());
    assert!(store.keys().is_empty());
}

#[test]
fn zero_ttl_lives_only_at_the_instant_of_insertion() {
    let base = Instant::now();
    let mut store = TransientDashMap::new(Duration::ZERO);
    assert_eq!(store.insert_at(1, 10, base), Ok(None));
    assert!(store.get_at(&1, base).is_some());
    assert!(store.get_at(&1, base + Duration::from_nanos(1)).is_none());
}

#[test]
fn insert_reads_the_clock() {
    let before = Instant::now();
    let mut store = TransientDashMap::new(ms(500));
    assert_eq!(store.insert(1, 10), Ok(None));
    let after = Instant::now();
    let expiration = store.get(&1).unwrap().expiration;
    assert!(before + ms(500) <= expiration);
    assert!(expiration <= after + ms(500));
}

#[test]
fn deadline_overflow_stores_nothing() {
    let mut store = TransientDashMap::new(Duration::MAX);
    assert_eq!(store.insert(1, 10), Err(DeadlineOverflow));
    assert_eq!(store.insert_at(2, 20, Instant::now()), Err(DeadlineOverflow));
    assert!(store.keys().is_empty());
    assert!(store.get(&1).is_none());
}

#[test]
fn deadline_overflow_keeps_the_old_entry() {
    let base = Instant::now();
    let mut store = TransientDashMap::new(Duration::MAX);
    assert_eq!(store.insert_with_expiration(1, 10, base + HOUR), None);
    assert_eq!(store.insert(1, 11), Err(DeadlineOverflow));
    assert_eq!(**store.get(&1).unwrap(), 10);
}

#[test]
fn expired_entry_is_evicted_on_read() {
    let base = Instant::now();
    let mut store = TransientDashMap::new(HOUR);
    assert_eq!(store.insert_with_expiration(1, 10, base), None);
    assert_eq!(sorted_keys(&store), vec![1]);
    after_clock_passes(base);
    assert!(store.get(&1).is_none());
    assert!(store.keys().is_empty());
}

#[test]
fn expiration_is_idempotent() {
    let base = Instant::now();
    let mut store = TransientDashMap::new(HOUR);
    store.insert_with_expiration(1, 10, base + ms(1));
    store.insert_with_expiration(2, 20, base + HOUR);
    assert!(store.get_at(&1, base + ms(2)).is_none());
    assert!(store.get_at(&1, base + ms(2)).is_none());
    assert!(store.get_at(&1, base).is_none());
    assert!(store.get(&1).is_none());
    assert_eq!(sorted_keys(&store), vec![2]);
}

#[test]
fn entry_stays_in_the_table_until_touched() {
    let base = Instant::now();
    let mut store = TransientDashMap::new(HOUR);
    store.insert_with_expiration(1, 10, base);
    store.insert_with_expiration(2, 20, base);
    assert!(store.get_at(&1, base + ms(1)).is_none());
    assert_eq!(sorted_keys(&store), vec![2]);
}

#[test]
fn insert_overwrites_and_returns_the_displaced_entry() {
    let base = Instant::now();
    let mut store = TransientDashMap::new(ms(100));
    assert_eq!(store.insert_at(1, 10, base), Ok(None));
    assert_eq!(
        store.insert_at(1, 11, base + ms(5)),
        Ok(Some(Data::new(10, base + ms(100))))
    );
    let handle = store.get_at(&1, base + ms(6)).unwrap();
    assert_eq!(**handle, 11);
    assert_eq!(handle.expiration, base + ms(105));
}

#[test]
fn insert_returns_the_displaced_entry_even_if_expired() {
    let base = Instant::now();
    let mut store = TransientDashMap::new(ms(100));
    assert_eq!(store.insert_at(1, 10, base), Ok(None));
    let displaced = store.insert_at(1, 11, base + ms(500)).unwrap().unwrap();
    assert_eq!(displaced.object, 10);
    assert!(displaced.is_expired_at(base + ms(500)));
    assert_eq!(**store.get_at(&1, base + ms(500)).unwrap(), 11);
}

#[test]
fn insert_with_expiration_overwrites_a_live_entry() {
    let base = Instant::now();
    let mut store = TransientDashMap::new(HOUR);
    assert_eq!(store.insert_with_expiration(1, 10, base + HOUR), None);
    assert_eq!(
        store.insert_with_expiration(1, 11, base + ms(1)),
        Some(Data::new(10, base + HOUR))
    );
    assert_eq!(**store.get_at(&1, base).unwrap(), 11);
    assert!(store.get_at(&1, base + ms(2)).is_none());
}

#[test]
fn insert_with_expiration_bypasses_the_default_ttl() {
    let base = Instant::now();
    let mut store = TransientDashMap::new(ms(1));
    store.insert_with_expiration(1, 10, base + HOUR);
    assert_eq!(store.get_at(&1, base + ms(30)).unwrap().expiration, base + HOUR);
}

#[test]
fn remove_returns_a_live_entry() {
    let mut store = TransientDashMap::new(HOUR);
    assert_eq!(store.insert(1, 10), Ok(None));
    assert_eq!(store.remove(&1), Some((1, 10)));
    assert!(store.get(&1).is_none());
    assert_eq!(store.remove(&1), None);
    assert!(store.keys().is_empty());
}

#[test]
fn remove_returns_an_expired_entry() {
    let base = Instant::now();
    let mut store = TransientDashMap::new(HOUR);
    store.insert_with_expiration(1, 10, base);
    after_clock_passes(base);
    assert_eq!(store.remove(&1), Some((1, 10)));
    assert!(store.get(&1).is_none());
    assert_eq!(store.remove(&1), None);
}

#[test]
fn remove_leaves_other_keys() {
    let mut store = TransientDashMap::new(HOUR);
    assert_eq!(store.insert(1, 10), Ok(None));
    assert_eq!(store.insert(2, 20), Ok(None));
    assert_eq!(store.remove(&1), Some((1, 10)));
    assert_eq!(**store.get(&2).unwrap(), 20);
    assert_eq!(sorted_keys(&store), vec![2]);
}

#[test]
fn get_mut_replaces_the_entry_in_place() {
    let base = Instant::now();
    let mut store = TransientDashMap::new(HOUR);
    store.insert_with_expiration(1, 10, base + HOUR);
    store.insert_with_expiration(2, 20, base + HOUR);
    {
        let mut handle = store.get_mut_at(&1, base).unwrap();
        assert_eq!(**handle, 10);
        *handle = Data::new(11, base + ms(5));
    }
    assert_eq!(**store.get_at(&1, base).unwrap(), 11);
    assert_eq!(**store.get_at(&2, base).unwrap(), 20);
    assert!(store.get_at(&1, base + ms(6)).is_none());
    assert_eq!(sorted_keys(&store), vec![2]);
}

#[test]
fn get_mut_evicts_an_expired_entry() {
    let base = Instant::now();
    let mut store = TransientDashMap::new(HOUR);
    store.insert_with_expiration(1, 10, base);
    store.insert_with_expiration(2, 20, base + HOUR);
    assert!(store.get_mut_at(&1, base + ms(1)).is_none());
    assert_eq!(sorted_keys(&store), vec![2]);
    after_clock_passes(base);
    assert!(store.get_mut(&1).is_none());
    assert_eq!(**store.get_mut(&2).unwrap(), 20);
}

#[test]
fn get_mut_on_an_absent_key() {
    let mut store = TransientDashMap::new(HOUR);
    assert!(store.get_mut(&9).is_none());
    assert!(store.keys().is_empty());
}

#[test]
fn entry_of_an_absent_key_is_vacant() {
    let base = Instant::now();
    let mut store = TransientDashMap::new(HOUR);
    store.insert_with_expiration(2, 20, base + HOUR);
    match store.entry(1) {
        Entry::Vacant(slot) => {
            slot.insert(Data::new(10, base + HOUR));
        }
        Entry::Occupied(_) => panic!("the key was never inserted"),
    }
    assert_eq!(**store.get_at(&1, base).unwrap(), 10);
    assert_eq!(**store.get_at(&2, base).unwrap(), 20);
    assert_eq!(sorted_keys(&store), vec![1, 2]);
}

#[test]
fn entry_does_not_filter_expired_entries() {
    let base = Instant::now();
    let mut store = TransientDashMap::new(HOUR);
    store.insert_with_expiration(1, 10, base);
    after_clock_passes(base);
    match store.entry(1) {
        Entry::Occupied(slot) => {
            assert_eq!(slot.get().object, 10);
            assert!(slot.get().is_expired());
        }
        Entry::Vacant(_) => panic!("the expired entry is still in the table"),
    }
    assert_eq!(sorted_keys(&store), vec![1]);
}

#[test]
fn entry_can_empty_its_slot() {
    let base = Instant::now();
    let mut store = TransientDashMap::new(HOUR);
    store.insert_with_expiration(1, 10, base + HOUR);
    store.insert_with_expiration(2, 20, base + HOUR);
    match store.entry(1) {
        Entry::Occupied(slot) => {
            assert_eq!(slot.remove(), Data::new(10, base + HOUR));
        }
        Entry::Vacant(_) => panic!("the key is present"),
    }
    assert_eq!(sorted_keys(&store), vec![2]);
}

#[test]
fn purge_drops_exactly_the_expired_entry() {
    let base = Instant::now();
    let mut store = TransientDashMap::new(HOUR);
    store.insert_with_expiration(1, 10, base + ms(1));
    store.insert_with_expiration(2, 20, base + ms(1000));
    store.insert_with_expiration(3, 30, base + ms(1000));
    assert_eq!(store.keys().len(), 3);
    store.purge_at(base + ms(2));
    assert_eq!(store.keys().len(), 2);
    assert_eq!(sorted_keys(&store), vec![2, 3]);
    assert_eq!(**store.get_at(&2, base + ms(2)).unwrap(), 20);
    assert_eq!(**store.get_at(&3, base + ms(2)).unwrap(), 30);
}

#[test]
fn purge_reads_the_clock() {
    let base = Instant::now();
    let mut store = TransientDashMap::new(HOUR);
    store.insert_with_expiration(1, 10, base);
    store.insert_with_expiration(2, 20, base + HOUR);
    store.insert_with_expiration(3, 30, base + HOUR);
    after_clock_passes(base);
    store.purge();
    assert_eq!(store.keys().len(), 2);
    assert_eq!(**store.get(&2).unwrap(), 20);
    assert_eq!(**store.get(&3).unwrap(), 30);
}

#[test]
fn purge_keeps_entries_at_their_expiration_instant() {
    let base = Instant::now();
    let mut store = TransientDashMap::new(HOUR);
    store.insert_with_expiration(1, 10, base + ms(5));
    store.purge_at(base + ms(5));
    assert_eq!(sorted_keys(&store), vec![1]);
    store.purge_at(base + ms(5) + Duration::from_nanos(1));
    assert!(store.keys().is_empty());
}

#[test]
fn purge_of_an_empty_store() {
    let mut store = TransientDashMap::new(HOUR);
    store.purge();
    assert!(store.keys().is_empty());
}

#[test]
fn purge_evicts_everything_expired() {
    let base = Instant::now();
    let mut store = TransientDashMap::new(HOUR);
    for key in 0..200u64 {
        let expiration = if key % 2 == 0 { base + ms(1) } else { base + HOUR };
        store.insert_with_expiration(key, key * 10, expiration);
    }
    store.purge_at(base + ms(2));
    let keys = sorted_keys(&store);
    assert_eq!(keys.len(), 100);
    for key in keys {
        assert_eq!(key % 2, 1);
        assert_eq!(**store.get_at(&key, base + ms(2)).unwrap(), key * 10);
    }
    store.purge_at(base + ms(2));
    assert_eq!(store.keys().len(), 100);
}

#[test]
fn keys_lists_each_key_once() {
    let mut store = TransientDashMap::new(HOUR);
    for key in [7u64, 3, 7, 9, 3, 1] {
        assert!(store.insert(key, key + 100).is_ok());
    }
    assert_eq!(sorted_keys(&store), vec![1, 3, 7, 9]);
}

#[test]
fn disjoint_writers_do_not_disturb_each_other() {
    let writers = 8u64;
    let per_writer = 50u64;
    let mut store = TransientDashMap::new(HOUR);
    for step in 0..per_writer {
        for writer in 0..writers {
            let key = writer * per_writer + step;
            assert_eq!(store.insert(key, writer), Ok(None));
        }
    }
    for writer in 0..writers {
        for step in 0..per_writer {
            let key = writer * per_writer + step;
            assert_eq!(**store.get(&key).unwrap(), writer);
        }
    }
    assert_eq!(store.keys().len() as u64, writers * per_writer);
}

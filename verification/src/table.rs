//! The backing table: a `DashMap` from `u64` keys to entries of `u64` values.
//!
//! Nothing in here is proved. Each function hands one call on to the table and
//! states what the table's source shows of it, over the name `table_entries`
//! for what the table holds. Every call that changes the table, or hands out a
//! handle into it, takes the table by `&mut`: the table's methods may block
//! forever when called while such a handle is alive, and an exclusive borrow
//! rules that out.

use crate::data::Data;
use dashmap::mapref::entry::Entry;
use dashmap::mapref::one::{Ref, RefMut};
use dashmap::DashMap;
use vstd::prelude::*;

verus! {

/// `dashmap::DashMap`, opaque but for `table_entries`.
#[verifier::external_type_specification]
#[verifier::external_body]
#[verifier::reject_recursive_types(K)]
#[verifier::reject_recursive_types(V)]
#[verifier::reject_recursive_types(S)]
pub struct ExDashMap<K, V, S>(DashMap<K, V, S>);

/// `dashmap::mapref::one::Ref`, a read handle to one entry of the table.
#[verifier::external_type_specification]
#[verifier::external_body]
#[verifier::reject_recursive_types(K)]
#[verifier::reject_recursive_types(V)]
pub struct ExRef<'a, K, V>(Ref<'a, K, V>);

/// `dashmap::mapref::one::RefMut`, a write handle to one entry of the table.
#[verifier::external_type_specification]
#[verifier::external_body]
#[verifier::reject_recursive_types(K)]
#[verifier::reject_recursive_types(V)]
pub struct ExRefMut<'a, K, V>(RefMut<'a, K, V>);

/// `dashmap::mapref::entry::Entry`, a handle to one key's slot, occupied or
/// vacant.
#[verifier::external_type_specification]
#[verifier::external_body]
#[verifier::reject_recursive_types(K)]
#[verifier::reject_recursive_types(V)]
pub struct ExEntry<'a, K, V>(Entry<'a, K, V>);

/// What the table holds: each key that is present, with its entry.
pub uninterp spec fn table_entries(table: DashMap<u64, Data<u64>>) -> Map<u64, Data<u64>>;

/// The entry that a read handle points at: what `Ref::value` borrows.
pub uninterp spec fn ref_entry(handle: Ref<u64, Data<u64>>) -> Data<u64>;

/// The entry that a write handle points at when it is handed out: what
/// `RefMut::value` borrows then.
pub uninterp spec fn ref_mut_entry(handle: RefMut<u64, Data<u64>>) -> Data<u64>;

/// The entry that a slot handle holds when it is handed out: what
/// `OccupiedEntry::get` borrows then if the handle is the `Occupied` variant,
/// nothing if it is the `Vacant` one.
pub uninterp spec fn slot_entry(handle: Entry<u64, Data<u64>>) -> Option<Data<u64>>;

/// A table without entries.
pub open spec fn no_entries() -> Map<u64, Data<u64>> {
    Map::empty()
}

/// The entry that an optional read handle points at.
pub open spec fn shown(handle: Option<Ref<u64, Data<u64>>>) -> Option<Data<u64>> {
    match handle {
        Some(h) => Some(ref_entry(h)),
        None => None,
    }
}

/// The entry that an optional write handle points at when it is handed out.
pub open spec fn shown_mut(handle: Option<RefMut<u64, Data<u64>>>) -> Option<Data<u64>> {
    match handle {
        Some(h) => Some(ref_mut_entry(h)),
        None => None,
    }
}

/// The key and entry that leave the table when `key` is removed from it.
pub open spec fn taken(entries: Map<u64, Data<u64>>, key: u64) -> Option<(u64, Data<u64>)> {
    match entries.get(key) {
        Some(entry) => Some((key, entry)),
        None => None,
    }
}

/// `DashMap::new`: the new table holds nothing.
#[verifier::external_body]
pub(crate) fn table_new() -> (table: DashMap<u64, Data<u64>>)
    ensures
        table_entries(table) == no_entries(),
{
    DashMap::new()
}

/// `DashMap::insert`: the entry is stored under the key, whatever was there;
/// what was there before is returned.
#[verifier::external_body]
pub(crate) fn table_insert(
    table: &mut DashMap<u64, Data<u64>>,
    key: u64,
    entry: Data<u64>,
) -> (previous: Option<Data<u64>>)
    ensures
        table_entries(*final(table)) == table_entries(*old(table)).insert(key, entry),
        previous == table_entries(*old(table)).get(key),
{
    table.insert(key, entry)
}

/// `DashMap::get`: a read handle to the key's entry exactly if the key is
/// present. The table is not changed.
#[verifier::external_body]
pub(crate) fn table_get<'a>(
    table: &'a DashMap<u64, Data<u64>>,
    key: &u64,
) -> (handle: Option<Ref<'a, u64, Data<u64>>>)
    ensures
        shown(handle) == table_entries(*table).get(*key),
{
    table.get(key)
}

/// `Ref::value`: borrows the entry that the handle points at.
#[verifier::external_body]
pub(crate) fn handle_value<'a>(handle: &'a Ref<'_, u64, Data<u64>>) -> (entry: &'a Data<u64>)
    ensures
        *entry == ref_entry(*handle),
{
    handle.value()
}

/// `DashMap::get_mut`: a write handle to the key's entry exactly if the key is
/// present. Its holder can change that entry and nothing else: once the handle
/// is gone, the key is present as before and every other key has kept its
/// entry.
#[verifier::external_body]
pub(crate) fn table_get_mut<'a>(
    table: &'a mut DashMap<u64, Data<u64>>,
    key: &u64,
) -> (handle: Option<RefMut<'a, u64, Data<u64>>>)
    ensures
        match handle {
            Some(h) => table_entries(*old(table)).get(*key) == Some(ref_mut_entry(h)),
            None => table_entries(*old(table)).get(*key) is None,
        },
        table_entries(*final(table)).remove(*key) == table_entries(*old(table)).remove(*key),
        table_entries(*final(table)).contains_key(*key) == table_entries(*old(table)).contains_key(
            *key,
        ),
{
    table.get_mut(key)
}

/// `DashMap::remove`: the key leaves the table, and comes back with its entry
/// if it was present.
#[verifier::external_body]
pub(crate) fn table_remove(
    table: &mut DashMap<u64, Data<u64>>,
    key: &u64,
) -> (removed: Option<(u64, Data<u64>)>)
    ensures
        table_entries(*final(table)) == table_entries(*old(table)).remove(*key),
        removed == taken(table_entries(*old(table)), *key),
{
    table.remove(key)
}

/// `DashMap::entry`: a handle to the key's slot, occupied with the key's entry
/// if the key is present and vacant if not. Its holder can fill, change or
/// empty that slot and nothing else: once the handle is gone, every other key
/// has kept its entry.
#[verifier::external_body]
pub(crate) fn table_entry<'a>(
    table: &'a mut DashMap<u64, Data<u64>>,
    key: u64,
) -> (handle: Entry<'a, u64, Data<u64>>)
    ensures
        slot_entry(handle) == table_entries(*old(table)).get(key),
        table_entries(*final(table)).remove(key) == table_entries(*old(table)).remove(key),
{
    table.entry(key)
}

/// `DashMap::iter`, each item mapped to its key: every key that is present,
/// once, in no order that can be relied on.
#[verifier::external_body]
pub(crate) fn table_keys(table: &DashMap<u64, Data<u64>>) -> (keys: Vec<u64>)
    ensures
        keys@.no_duplicates(),
        keys@.to_set() == table_entries(*table).dom(),
{
    table.iter().map(|item| *item.key()).collect()
}

} // verus!

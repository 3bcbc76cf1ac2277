//! The field map of a type: field descriptors by name, in insertion order.

use crate::field::{MetaField, MetaFieldView};
use indexmap::IndexMap;
use vstd::prelude::*;

verus! {

/// `indexmap::IndexMap`, a hash map that keeps its entries in insertion
/// order. The verifier sees nothing inside a value of it; what a map holds is
/// spoken of through `index_map_entries`.
#[verifier::external_type_specification]
#[verifier::external_body]
#[verifier::reject_recursive_types(K)]
#[verifier::reject_recursive_types(V)]
#[verifier::reject_recursive_types(S)]
pub struct ExIndexMap<K, V, S>(IndexMap<K, V, S>);

/// The entries of an `IndexMap` from field names to descriptors, in the map's
/// order: each key with the descriptor stored for it.
pub uninterp spec fn index_map_entries(map: IndexMap<String, MetaField>) -> Seq<(Seq<char>, MetaFieldView)>;

/// The entries of a field map in specifications: name and descriptor, in order.
pub type Entries = Seq<(Seq<char>, MetaFieldView)>;

/// Whether some entry is stored under `key`.
pub open spec fn has_key(entries: Entries, key: Seq<char>) -> bool {
    exists|i: int| 0 <= i < entries.len() && (#[trigger] entries[i]).0 == key
}

/// The position of an entry stored under `key`.
pub open spec fn key_index(entries: Entries, key: Seq<char>) -> int {
    choose|i: int| 0 <= i < entries.len() && (#[trigger] entries[i]).0 == key
}

/// The descriptor stored under `key`.
pub open spec fn entry_of(entries: Entries, key: Seq<char>) -> Option<MetaFieldView> {
    if has_key(entries, key) {
        Some(entries[key_index(entries, key)].1)
    } else {
        None
    }
}

/// No two entries share a key.
pub open spec fn distinct_keys(entries: Entries) -> bool {
    forall|i: int, j: int|
        0 <= i < j < entries.len() ==> (#[trigger] entries[i]).0 != (#[trigger] entries[j]).0
}

/// Exactly one entry is stored under `key`.
pub open spec fn occurs_once(entries: Entries, key: Seq<char>) -> bool {
    exists|i: int|
        0 <= i < entries.len() && (#[trigger] entries[i]).0 == key && forall|j: int|
            0 <= j < entries.len() && (#[trigger] entries[j]).0 == key ==> j == i
}

/// Where no two entries share a key, a key that is present occurs once.
pub proof fn lemma_present_once(entries: Entries, key: Seq<char>)
    requires
        distinct_keys(entries),
        has_key(entries, key),
    ensures
        occurs_once(entries, key),
{
    let i = key_index(entries, key);
    assert(entries[i].0 == key);
    assert forall|j: int| 0 <= j < entries.len() && (#[trigger] entries[j]).0 == key implies j
        == i by {
        if j < i {
            assert(entries[j].0 != entries[i].0);
        } else if i < j {
            assert(entries[i].0 != entries[j].0);
        }
    }
}

/// The entries after `value` is stored under `key`: an entry already under
/// `key` keeps its place and takes the new value, a new entry comes last.
pub open spec fn entries_with(entries: Entries, key: Seq<char>, value: MetaFieldView) -> Entries {
    if has_key(entries, key) {
        entries.update(key_index(entries, key), (key, value))
    } else {
        entries.push((key, value))
    }
}

/// `IndexMap::new`: the map it returns has no entries.
#[verifier::external_body]
fn index_map_new() -> (map: IndexMap<String, MetaField>)
    ensures
        index_map_entries(map) == Seq::<(Seq<char>, MetaFieldView)>::empty(),
{
    IndexMap::new()
}

/// `IndexMap::insert`: where an equal key is present, the entry keeps its
/// place, its value is replaced and the old value is returned; otherwise the
/// pair is added last and `None` is returned.
#[verifier::external_body]
fn index_map_insert(map: &mut IndexMap<String, MetaField>, key: String, value: MetaField) -> (replaced:
    Option<MetaField>)
    ensures
        index_map_entries(*final(map)) == entries_with(index_map_entries(*old(map)), key@, value@),
        match replaced {
            Some(previous) => has_key(index_map_entries(*old(map)), key@) && previous@
                == index_map_entries(*old(map))[key_index(index_map_entries(*old(map)), key@)].1,
            None => !has_key(index_map_entries(*old(map)), key@),
        },
{
    map.insert(key, value)
}

/// `IndexMap::contains_key`: whether an entry is stored under an equal key.
#[verifier::external_body]
fn index_map_contains_key(map: &IndexMap<String, MetaField>, key: &str) -> (present: bool)
    ensures
        present == has_key(index_map_entries(*map), key@),
{
    map.contains_key(key)
}

/// `IndexMap::get`: the value stored under an equal key, if there is one.
#[verifier::external_body]
fn index_map_get<'a>(map: &'a IndexMap<String, MetaField>, key: &str) -> (found: Option<
    &'a MetaField,
>)
    ensures
        match found {
            Some(field) => has_key(index_map_entries(*map), key@) && field@ == index_map_entries(
                *map,
            )[key_index(index_map_entries(*map), key@)].1,
            None => !has_key(index_map_entries(*map), key@),
        },
{
    map.get(key)
}

/// `IndexMap::get_index`: the key and the value of the entry at `index` in
/// the map's order; `None` where the map has no more than `index` entries.
#[verifier::external_body]
fn index_map_get_index<'a>(map: &'a IndexMap<String, MetaField>, index: usize) -> (found: Option<
    (&'a String, &'a MetaField),
>)
    ensures
        match found {
            Some((key, field)) => index < index_map_entries(*map).len() && (key@, field@)
                == index_map_entries(*map)[index as int],
            None => index >= index_map_entries(*map).len(),
        },
{
    map.get_index(index)
}

/// `IndexMap::len`: the number of entries.
#[verifier::external_body]
fn index_map_len(map: &IndexMap<String, MetaField>) -> (len: usize)
    ensures
        len == index_map_entries(*map).len(),
{
    map.len()
}

/// A type's field descriptors by field name, in the order in which the names
/// were first inserted. No name occurs twice.
#[derive(Debug, PartialEq, Eq)]
pub struct FieldMap {
    map: IndexMap<String, MetaField>,
}

impl View for FieldMap {
    type V = Seq<(Seq<char>, MetaFieldView)>;

    closed spec fn view(&self) -> Seq<(Seq<char>, MetaFieldView)> {
        index_map_entries(self.map)
    }
}

impl FieldMap {
    /// What holds of every field map: no name occurs twice.
    #[verifier::type_invariant]
    pub closed spec fn well_formed(self) -> bool {
        distinct_keys(index_map_entries(self.map))
    }

    /// In a field map no two entries share a name.
    pub proof fn lemma_names_distinct(self)
        requires
            self.well_formed(),
        ensures
            distinct_keys(self@),
    {
    }

    /// A field map without entries.
    pub fn new() -> (fields: FieldMap)
        ensures
            fields@ == Seq::<(Seq<char>, MetaFieldView)>::empty(),
    {
        FieldMap { map: index_map_new() }
    }

    /// The number of descriptors.
    pub fn len(&self) -> (len: usize)
        ensures
            len == self@.len(),
    {
        index_map_len(&self.map)
    }

    /// Whether a descriptor is stored under `name`.
    pub fn contains_key(&self, name: &str) -> (present: bool)
        ensures
            present == has_key(self@, name@),
    {
        index_map_contains_key(&self.map, name)
    }

    /// The descriptor stored under `name`.
    pub fn get(&self, name: &str) -> (found: Option<&MetaField>)
        ensures
            found.deep_view() == entry_of(self@, name@),
    {
        index_map_get(&self.map, name)
    }

    /// The name and the descriptor at `index` in the order of the map.
    pub fn get_index(&self, index: usize) -> (found: Option<(&String, &MetaField)>)
        ensures
            match found {
                Some((name, field)) => index < self@.len() && (name@, field@) == self@[index as int],
                None => index >= self@.len(),
            },
    {
        index_map_get_index(&self.map, index)
    }

    /// Stores `field` under `name`. A descriptor already under `name` keeps
    /// its place and is replaced; a new one comes last.
    pub fn insert(&mut self, name: String, field: MetaField)
        ensures
            final(self)@ == entries_with(old(self)@, name@, field@),
    {
        proof {
            use_type_invariant(&*self);
            lemma_entries_with_distinct(self@, name@, field@);
        }
        let mut map = index_map_new();
        std::mem::swap(&mut self.map, &mut map);
        let _ = index_map_insert(&mut map, name, field);
        std::mem::swap(&mut self.map, &mut map);
    }
}

/// Storing a value under a key keeps the keys distinct.
pub proof fn lemma_entries_with_distinct(entries: Entries, key: Seq<char>, value: MetaFieldView)
    requires
        distinct_keys(entries),
    ensures
        distinct_keys(entries_with(entries, key, value)),
{
}

} // verus!

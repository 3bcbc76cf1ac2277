//! The argument map of a field: argument descriptors by name, in insertion
//! order.

use crate::input_value::{MetaInputValue, MetaInputValueView};
use indexmap::IndexMap;
use vstd::prelude::*;

verus! {

/// The entries of an `IndexMap` from argument names to descriptors, in the
/// map's order: each key with the descriptor stored for it.
pub uninterp spec fn arg_map_entries(map: IndexMap<String, MetaInputValue>) -> Seq<(Seq<char>, MetaInputValueView)>;

/// The entries of an argument map in specifications: name and descriptor, in
/// order.
pub type Args = Seq<(Seq<char>, MetaInputValueView)>;

/// Whether some argument is stored under `key`.
pub open spec fn has_arg(args: Args, key: Seq<char>) -> bool {
    exists|i: int| 0 <= i < args.len() && (#[trigger] args[i]).0 == key
}

/// The position of an argument stored under `key`.
pub open spec fn arg_index(args: Args, key: Seq<char>) -> int {
    choose|i: int| 0 <= i < args.len() && (#[trigger] args[i]).0 == key
}

/// The descriptor stored under `key`.
pub open spec fn arg_of(args: Args, key: Seq<char>) -> Option<MetaInputValueView> {
    if has_arg(args, key) {
        Some(args[arg_index(args, key)].1)
    } else {
        None
    }
}

/// No two arguments share a key.
pub open spec fn distinct_args(args: Args) -> bool {
    forall|i: int, j: int|
        0 <= i < j < args.len() ==> (#[trigger] args[i]).0 != (#[trigger] args[j]).0
}

/// The arguments after `value` is stored under `key`: an argument already
/// under `key` keeps its place and takes the new value, a new one comes last.
pub open spec fn args_with(args: Args, key: Seq<char>, value: MetaInputValueView) -> Args {
    if has_arg(args, key) {
        args.update(arg_index(args, key), (key, value))
    } else {
        args.push((key, value))
    }
}

/// `IndexMap::new`: the map it returns has no entries.
#[verifier::external_body]
fn arg_map_new() -> (map: IndexMap<String, MetaInputValue>)
    ensures
        arg_map_entries(map) == Seq::<(Seq<char>, MetaInputValueView)>::empty(),
{
    IndexMap::new()
}

/// `IndexMap::insert`: where an equal key is present, the entry keeps its
/// place, its value is replaced and the old value is returned; otherwise the
/// pair is added last and `None` is returned.
#[verifier::external_body]
fn arg_map_insert(map: &mut IndexMap<String, MetaInputValue>, key: String, value: MetaInputValue) -> (replaced:
    Option<MetaInputValue>)
    ensures
        arg_map_entries(*final(map)) == args_with(arg_map_entries(*old(map)), key@, value@),
        match replaced {
            Some(previous) => has_arg(arg_map_entries(*old(map)), key@) && previous@
                == arg_map_entries(*old(map))[arg_index(arg_map_entries(*old(map)), key@)].1,
            None => !has_arg(arg_map_entries(*old(map)), key@),
        },
{
    map.insert(key, value)
}

/// `IndexMap::get`: the value stored under an equal key, if there is one.
#[verifier::external_body]
fn arg_map_get<'a>(map: &'a IndexMap<String, MetaInputValue>, key: &str) -> (found: Option<
    &'a MetaInputValue,
>)
    ensures
        match found {
            Some(value) => has_arg(arg_map_entries(*map), key@) && value@ == arg_map_entries(
                *map,
            )[arg_index(arg_map_entries(*map), key@)].1,
            None => !has_arg(arg_map_entries(*map), key@),
        },
{
    map.get(key)
}

/// `IndexMap::get_index`: the key and the value of the entry at `index` in
/// the map's order; `None` where the map has no more than `index` entries.
#[verifier::external_body]
fn arg_map_get_index<'a>(map: &'a IndexMap<String, MetaInputValue>, index: usize) -> (found: Option<
    (&'a String, &'a MetaInputValue),
>)
    ensures
        match found {
            Some((key, value)) => index < arg_map_entries(*map).len() && (key@, value@)
                == arg_map_entries(*map)[index as int],
            None => index >= arg_map_entries(*map).len(),
        },
{
    map.get_index(index)
}

/// `IndexMap::len`: the number of entries.
#[verifier::external_body]
fn arg_map_len(map: &IndexMap<String, MetaInputValue>) -> (len: usize)
    ensures
        len == arg_map_entries(*map).len(),
{
    map.len()
}

/// A field's argument descriptors by argument name, in the order in which
/// the names were first inserted. No name occurs twice.
#[derive(Debug, PartialEq, Eq)]
pub struct ArgMap {
    map: IndexMap<String, MetaInputValue>,
}

impl View for ArgMap {
    type V = Seq<(Seq<char>, MetaInputValueView)>;

    closed spec fn view(&self) -> Seq<(Seq<char>, MetaInputValueView)> {
        arg_map_entries(self.map)
    }
}

impl ArgMap {
    /// What holds of every argument map: no name occurs twice.
    #[verifier::type_invariant]
    pub closed spec fn well_formed(self) -> bool {
        distinct_args(arg_map_entries(self.map))
    }

    /// In an argument map no two entries share a name.
    pub proof fn lemma_names_distinct(self)
        requires
            self.well_formed(),
        ensures
            distinct_args(self@),
    {
    }

    /// An argument map without entries.
    pub fn new() -> (args: ArgMap)
        ensures
            args@ == Seq::<(Seq<char>, MetaInputValueView)>::empty(),
    {
        ArgMap { map: arg_map_new() }
    }

    /// The number of descriptors.
    pub fn len(&self) -> (len: usize)
        ensures
            len == self@.len(),
    {
        arg_map_len(&self.map)
    }

    /// The descriptor stored under `name`.
    pub fn get(&self, name: &str) -> (found: Option<&MetaInputValue>)
        ensures
            found.deep_view() == arg_of(self@, name@),
    {
        arg_map_get(&self.map, name)
    }

    /// The name and the descriptor at `index` in the order of the map.
    pub fn get_index(&self, index: usize) -> (found: Option<(&String, &MetaInputValue)>)
        ensures
            match found {
                Some((name, value)) => index < self@.len() && (name@, value@) == self@[index as int],
                None => index >= self@.len(),
            },
    {
        arg_map_get_index(&self.map, index)
    }

    /// Stores `value` under `name`. A descriptor already under `name` keeps
    /// its place and is replaced; a new one comes last.
    pub fn insert(&mut self, name: String, value: MetaInputValue)
        ensures
            final(self)@ == args_with(old(self)@, name@, value@),
    {
        proof {
            use_type_invariant(&*self);
            lemma_args_with_distinct(self@, name@, value@);
        }
        let mut map = arg_map_new();
        std::mem::swap(&mut self.map, &mut map);
        let _ = arg_map_insert(&mut map, name, value);
        std::mem::swap(&mut self.map, &mut map);
    }
}

/// Storing a value under a key keeps the keys distinct.
pub proof fn lemma_args_with_distinct(args: Args, key: Seq<char>, value: MetaInputValueView)
    requires
        distinct_args(args),
    ensures
        distinct_args(args_with(args, key, value)),
{
}

} // verus!

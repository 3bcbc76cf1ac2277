//! The build-phase step that makes `__schema` and `__type` visible in the
//! root type's metadata.

use crate::arg_map::ArgMap;
use crate::field::{field_view, MetaField, MetaFieldView};
use crate::input_value::{input_value_view, MetaInputValue};
use crate::field_map::{
    distinct_keys, has_key, lemma_entries_with_distinct, lemma_present_once, occurs_once, Entries,
    FieldMap,
};
use vstd::prelude::*;

verus! {

/// The descriptor of `__schema`: a field without arguments whose result
/// type is `ty`, the name that the schema description type registered under.
pub open spec fn schema_field_view(ty: Seq<char>) -> MetaFieldView {
    field_view(
        "__schema"@,
        Some("Access the current type schema of this server."@),
        Seq::empty(),
        ty,
    )
}

/// The descriptor of `__type`, with its one required string argument `name`.
pub open spec fn type_field_view() -> MetaFieldView {
    field_view(
        "__type"@,
        Some("Request the type information of a single type."@),
        seq![("name"@, input_value_view("name"@, "String!"@))],
        "__Type"@,
    )
}

/// Builds the descriptor of `__schema` with the result type `ty`.
pub fn schema_field(ty: String) -> (field: MetaField)
    ensures
        field@ == schema_field_view(ty@),
{
    MetaField::new(
        "__schema".to_owned(),
        Some("Access the current type schema of this server."),
        ArgMap::new(),
        ty,
    )
}

/// Builds the descriptor of `__type`.
pub fn type_field() -> (field: MetaField)
    ensures
        field@ == type_field_view(),
{
    let mut args = ArgMap::new();
    args.insert("name".to_owned(), MetaInputValue::new("name", "String!".to_owned()));
    assert(args@ =~= seq![("name"@, input_value_view("name"@, "String!"@))]);
    MetaField::new(
        "__type".to_owned(),
        Some("Request the type information of a single type."),
        args,
        "__Type".to_owned(),
    )
}

/// The entries with `value` under `key` where no entry was under it, and
/// unchanged where one was.
pub open spec fn entries_with_absent(entries: Entries, key: Seq<char>, value: MetaFieldView) -> Entries {
    if has_key(entries, key) {
        entries
    } else {
        entries.push((key, value))
    }
}

/// A field map after the descriptors of `__schema` and `__type` were added
/// where they were missing. `schema_type` is the result type of `__schema`.
pub open spec fn with_introspection_fields(fields: Entries, schema_type: Seq<char>) -> Entries {
    entries_with_absent(
        entries_with_absent(fields, "__schema"@, schema_field_view(schema_type)),
        "__type"@,
        type_field_view(),
    )
}

/// Adds the descriptors of `__schema` and `__type` to a field map, each
/// unless a descriptor of that name is present. `schema_type` is the result
/// type of `__schema`.
pub fn add_introspection_fields(fields: &mut FieldMap, schema_type: String)
    ensures
        final(fields)@ == with_introspection_fields(old(fields)@, schema_type@),
        occurs_once(final(fields)@, "__schema"@),
        occurs_once(final(fields)@, "__type"@),
{
    proof {
        use_type_invariant(&*fields);
        fields.lemma_names_distinct();
        lemma_introspection_fields_once(fields@, schema_type@, schema_type@);
    }
    if !fields.contains_key("__schema") {
        fields.insert("__schema".to_owned(), schema_field(schema_type));
    }
    if !fields.contains_key("__type") {
        fields.insert("__type".to_owned(), type_field());
    }
}

/// In a field map that was augmented, `__schema` and `__type` each occur
/// exactly once, and to augment it again changes nothing, whatever result
/// type the second build names: however often a schema is built, each
/// descriptor is inserted once.
pub proof fn lemma_introspection_fields_once(fields: Entries, schema_type: Seq<char>, again: Seq<char>)
    requires
        distinct_keys(fields),
    ensures
        occurs_once(with_introspection_fields(fields, schema_type), "__schema"@),
        occurs_once(with_introspection_fields(fields, schema_type), "__type"@),
        distinct_keys(with_introspection_fields(fields, schema_type)),
        with_introspection_fields(with_introspection_fields(fields, schema_type), again)
            == with_introspection_fields(fields, schema_type),
{
    let first = entries_with_absent(fields, "__schema"@, schema_field_view(schema_type));
    let second = with_introspection_fields(fields, schema_type);
    lemma_entries_with_absent_distinct(fields, "__schema"@, schema_field_view(schema_type));
    lemma_entries_with_absent_distinct(first, "__type"@, type_field_view());
    lemma_introspection_fields_present(fields, schema_type);
    lemma_present_once(second, "__schema"@);
    lemma_present_once(second, "__type"@);
}

/// Adding a value under a key unless one is there keeps the keys distinct.
pub proof fn lemma_entries_with_absent_distinct(entries: Entries, key: Seq<char>, value: MetaFieldView)
    requires
        distinct_keys(entries),
    ensures
        distinct_keys(entries_with_absent(entries, key, value)),
{
    if !has_key(entries, key) {
        lemma_entries_with_distinct(entries, key, value);
    }
}

/// After the augmentation a field map holds both introspection descriptors.
pub proof fn lemma_introspection_fields_present(fields: Entries, schema_type: Seq<char>)
    ensures
        has_key(with_introspection_fields(fields, schema_type), "__schema"@),
        has_key(with_introspection_fields(fields, schema_type), "__type"@),
{
    let first = entries_with_absent(fields, "__schema"@, schema_field_view(schema_type));
    lemma_entries_with_absent_has_key(fields, "__schema"@, schema_field_view(schema_type));
    lemma_entries_with_absent_has_key(first, "__type"@, type_field_view());
    lemma_entries_with_absent_keeps_key(first, "__type"@, type_field_view(), "__schema"@);
}

/// After a value was added under a key unless one was there, the key is
/// present.
pub proof fn lemma_entries_with_absent_has_key(entries: Entries, key: Seq<char>, value: MetaFieldView)
    ensures
        has_key(entries_with_absent(entries, key, value), key),
{
    if !has_key(entries, key) {
        let after = entries.push((key, value));
        assert(after[entries.len() as int].0 == key);
    }
}

/// Adding a value under a key keeps every key that was present.
pub proof fn lemma_entries_with_absent_keeps_key(
    entries: Entries,
    key: Seq<char>,
    value: MetaFieldView,
    other: Seq<char>,
)
    requires
        has_key(entries, other),
    ensures
        has_key(entries_with_absent(entries, key, value), other),
{
    let i = choose|i: int| 0 <= i < entries.len() && (#[trigger] entries[i]).0 == other;
    assert(entries_with_absent(entries, key, value)[i].0 == other);
}

} // verus!

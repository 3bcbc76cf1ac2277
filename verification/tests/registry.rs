use query_root::arg_map::ArgMap;
use query_root::error::{Pos, ServerError};
use query_root::field::MetaField;
use query_root::field_map::FieldMap;
use query_root::input_value::MetaInputValue;
use query_root::introspection::{present, type_answer};
use query_root::mode::IntrospectionMode;
use query_root::registry::{contains_name, MetaType, Registry, TypeKind};
use query_root::value::Value;

fn ty(name: &str, kind: TypeKind, keys: &[&str]) -> MetaType {
    MetaType {
        name: name.to_string(),
        kind,
        fields: FieldMap::new(),
        keys: keys.iter().map(|key| key.to_string()).collect(),
    }
}

fn names(list: &[&str]) -> Vec<String> {
    list.iter().map(|name| name.to_string()).collect()
}

fn sample() -> Registry {
    let mut registry = Registry::new(IntrospectionMode::Enabled, false);
    registry.insert_type(ty("Query", TypeKind::Object, &[]));
    registry.insert_type(ty("User", TypeKind::Object, &["id"]));
    registry.insert_type(ty("Secret", TypeKind::Object, &[]));
    registry
}

fn field(name: &str, ty: &str) -> MetaField {
    MetaField::new(name.to_string(), None, ArgMap::new(), ty.to_string())
}

#[test]
fn new_registry_keeps_its_flags() {
    let registry = Registry::new(IntrospectionMode::IntrospectionOnly, true);
    assert_eq!(registry.introspection_mode(), IntrospectionMode::IntrospectionOnly);
    assert!(registry.enable_federation());
    assert!(!registry.has_entities());
    assert_eq!(registry.get_type("Query"), None);
    let registry = Registry::new(IntrospectionMode::Disabled, false);
    assert_eq!(registry.introspection_mode(), IntrospectionMode::Disabled);
    assert!(!registry.enable_federation());
}

#[test]
fn get_type_finds_by_name() {
    let registry = sample();
    assert_eq!(registry.get_type("User"), Some(&ty("User", TypeKind::Object, &["id"])));
    assert_eq!(registry.get_type("Query"), Some(&ty("Query", TypeKind::Object, &[])));
    assert_eq!(registry.get_type("user"), None);
    assert_eq!(registry.get_type(""), None);
}

#[test]
fn insert_type_replaces_a_type_of_the_same_name() {
    let mut registry = sample();
    registry.insert_type(ty("User", TypeKind::Interface, &[]));
    assert_eq!(registry.get_type("User"), Some(&ty("User", TypeKind::Interface, &[])));
    let mut expected = Registry::new(IntrospectionMode::Enabled, false);
    expected.insert_type(ty("Query", TypeKind::Object, &[]));
    expected.insert_type(ty("User", TypeKind::Interface, &[]));
    expected.insert_type(ty("Secret", TypeKind::Object, &[]));
    assert_eq!(registry, expected);
}

#[test]
fn has_entities_needs_a_keyed_object_or_interface() {
    assert!(sample().has_entities());
    for kind in [TypeKind::Scalar, TypeKind::Union, TypeKind::Enum, TypeKind::InputObject] {
        let mut registry = Registry::new(IntrospectionMode::Enabled, false);
        registry.insert_type(ty("Keyed", kind, &["id"]));
        assert!(!registry.has_entities());
    }
    for kind in [TypeKind::Object, TypeKind::Interface] {
        let mut registry = Registry::new(IntrospectionMode::Enabled, false);
        registry.insert_type(ty("Plain", kind, &[]));
        assert!(!registry.has_entities());
        registry.insert_type(ty("Keyed", kind, &["id"]));
        assert!(registry.has_entities());
    }
}

#[test]
fn type_lookup_of_an_unregistered_name_finds_nothing() {
    let registry = sample();
    let visible = names(&["Query", "User", "Ghost"]);
    assert_eq!(registry.find_visible_type(&visible, "Ghost"), None);
    assert_eq!(type_answer(None), Ok(Some(Value::Null)));
}

#[test]
fn type_lookup_of_a_name_that_is_not_visible_finds_nothing() {
    let registry = sample();
    let visible = names(&["Query", "User"]);
    assert_eq!(registry.find_visible_type(&visible, "Secret"), None);
    assert_eq!(registry.find_visible_type(&Vec::new(), "Query"), None);
}

#[test]
fn type_lookup_of_a_visible_type_finds_it() {
    let registry = sample();
    let visible = names(&["Query", "User"]);
    assert_eq!(
        registry.find_visible_type(&visible, "User"),
        Some(&ty("User", TypeKind::Object, &["id"]))
    );
}

#[test]
fn type_answer_wraps_the_description() {
    let described = Value::Object(vec![("name".to_string(), Value::String("User".to_string()))]);
    let again = Value::Object(vec![("name".to_string(), Value::String("User".to_string()))]);
    assert_eq!(type_answer(Some(Ok(described))), Ok(Some(again)));
    let error = ServerError::Resolver { message: "no".to_string(), locations: Vec::new() };
    assert_eq!(type_answer(Some(Err(error.clone()))), Err(error));
}

#[test]
fn present_wraps_a_value_and_passes_an_error() {
    assert_eq!(present(Ok(Value::Boolean(true))), Ok(Some(Value::Boolean(true))));
    assert_eq!(present(Ok(Value::Null)), Ok(Some(Value::Null)));
    let error = ServerError::EntityNotFound { pos: Pos { line: 1, column: 2 } };
    assert_eq!(present(Err(error.clone())), Err(error));
}

#[test]
fn contains_name_compares_whole_names() {
    let list = names(&["Query", "User"]);
    assert!(contains_name(&list, "User"));
    assert!(!contains_name(&list, "Use"));
    assert!(!contains_name(&list, "user"));
    assert!(!contains_name(&Vec::new(), "User"));
}

#[test]
fn field_map_keeps_insertion_order_and_replaces_in_place() {
    let mut fields = FieldMap::new();
    assert_eq!(fields.len(), 0);
    assert!(!fields.contains_key("a"));
    assert_eq!(fields.get("a"), None);
    fields.insert("a".to_string(), field("a", "Int"));
    fields.insert("b".to_string(), field("b", "Int"));
    assert_eq!(fields.len(), 2);
    assert!(fields.contains_key("a"));
    assert!(fields.contains_key("b"));
    assert!(!fields.contains_key("c"));
    assert_eq!(fields.get("a"), Some(&field("a", "Int")));
    fields.insert("a".to_string(), field("a", "String"));
    assert_eq!(fields.len(), 2);
    assert_eq!(fields.get("a"), Some(&field("a", "String")));
    assert_eq!(fields.get("b"), Some(&field("b", "Int")));
}

#[test]
fn field_maps_differ_from_the_empty_map_after_an_insert() {
    let mut fields = FieldMap::new();
    fields.insert("a".to_string(), field("a", "Int"));
    assert_ne!(fields, FieldMap::new());
}

#[test]
fn field_map_hands_out_entries_in_insertion_order() {
    let mut fields = FieldMap::new();
    assert_eq!(fields.get_index(0), None);
    fields.insert("b".to_string(), field("b", "Int"));
    fields.insert("a".to_string(), field("a", "Int"));
    fields.insert("b".to_string(), field("b", "String"));
    assert_eq!(fields.get_index(0), Some((&"b".to_string(), &field("b", "String"))));
    assert_eq!(fields.get_index(1), Some((&"a".to_string(), &field("a", "Int"))));
    assert_eq!(fields.get_index(2), None);
}

#[test]
fn types_stand_in_the_order_of_registration() {
    let mut registry = sample();
    registry.insert_type(ty("Query", TypeKind::Interface, &["id"]));
    let listed: Vec<&str> = registry.types().iter().map(|ty| ty.name.as_str()).collect();
    assert_eq!(listed, vec!["Query", "User", "Secret"]);
    assert_eq!(registry.types()[0].kind, TypeKind::Interface);
    assert_eq!(Registry::new(IntrospectionMode::Enabled, true).types().len(), 0);
}

fn arg(name: &'static str, ty: &str) -> MetaInputValue {
    MetaInputValue::new(name, ty.to_string())
}

#[test]
fn arg_map_keeps_insertion_order_and_replaces_in_place() {
    let mut args = ArgMap::new();
    assert_eq!(args.len(), 0);
    assert_eq!(args.get("a"), None);
    assert_eq!(args.get_index(0), None);
    args.insert("b".to_string(), arg("b", "Int"));
    args.insert("a".to_string(), arg("a", "Int"));
    assert_eq!(args.len(), 2);
    assert_eq!(args.get("a"), Some(&arg("a", "Int")));
    assert_eq!(args.get("c"), None);
    args.insert("b".to_string(), arg("b", "String!"));
    assert_eq!(args.len(), 2);
    assert_eq!(args.get_index(0), Some((&"b".to_string(), &arg("b", "String!"))));
    assert_eq!(args.get_index(1), Some((&"a".to_string(), &arg("a", "Int"))));
    assert_eq!(args.get_index(2), None);
    assert_ne!(args, ArgMap::new());
}

#[test]
fn a_new_argument_descriptor_has_its_defaults() {
    assert_eq!(
        arg("name", "String!"),
        MetaInputValue {
            name: "name",
            description: None,
            ty: "String!".to_string(),
            default_value: None,
            inaccessible: false,
            tags: Vec::new(),
            is_secret: false,
        }
    );
}

use query_root::context::{Context, Field};
use query_root::error::{Pos, ServerError};
use query_root::federation::{collect_entities, entity_or_not_found, SdlExportOptions, Service};
use query_root::mode::IntrospectionMode;
use query_root::registry::Registry;
use query_root::value::{Number, Value};

const FIELD_POS: Pos = Pos { line: 2, column: 5 };

fn entities_field() -> Field {
    Field { name: "_entities".to_string(), pos: FIELD_POS, arguments: Vec::new() }
}

fn user(id: i64) -> Value {
    Value::Object(vec![
        ("__typename".to_string(), Value::String("User".to_string())),
        ("id".to_string(), Value::Number(Number::Int(id))),
    ])
}

fn failed(message: &str) -> ServerError {
    ServerError::Resolver {
        message: message.to_string(),
        locations: vec![Pos { line: 40, column: 1 }],
    }
}

fn collect(found: Vec<Result<Option<Value>, ServerError>>) -> Result<Option<Value>, ServerError> {
    let registry = Registry::new(IntrospectionMode::Enabled, true);
    let item = entities_field();
    let ctx = Context {
        registry: &registry,
        introspection_mode: IntrospectionMode::Enabled,
        item: &item,
        is_for_introspection: false,
    };
    collect_entities(&ctx, found)
}

#[test]
fn no_representations_answer_the_empty_list() {
    assert_eq!(collect(Vec::new()), Ok(Some(Value::List(Vec::new()))));
}

#[test]
fn an_unresolvable_representation_fails_the_whole_batch() {
    let found = vec![Ok(Some(user(1))), Ok(None), Ok(Some(user(3)))];
    assert_eq!(collect(found), Err(ServerError::EntityNotFound { pos: FIELD_POS }));
}

#[test]
fn an_unresolvable_representation_fails_the_batch_whatever_the_others_are() {
    let expected = Err(ServerError::EntityNotFound { pos: FIELD_POS });
    assert_eq!(collect(vec![Ok(None), Ok(None), Ok(None)]), expected);
    assert_eq!(collect(vec![Ok(Some(user(1))), Ok(None), Ok(None)]), expected);
    assert_eq!(collect(vec![Ok(Some(user(1))), Ok(None), Err(failed("late"))]), expected);
    assert_eq!(collect(vec![Ok(None)]), expected);
}

#[test]
fn resolved_representations_answer_in_their_order() {
    let found = vec![Ok(Some(user(2))), Ok(Some(user(1)))];
    assert_eq!(collect(found), Ok(Some(Value::List(vec![user(2), user(1)]))));
}

#[test]
fn three_resolved_representations_keep_their_places() {
    let found = vec![Ok(Some(user(3))), Ok(Some(Value::Null)), Ok(Some(user(1)))];
    assert_eq!(collect(found), Ok(Some(Value::List(vec![user(3), Value::Null, user(1)]))));
}

#[test]
fn a_resolver_error_passes_through_unchanged() {
    let found = vec![Ok(Some(user(1))), Err(failed("database down")), Ok(Some(user(3)))];
    assert_eq!(collect(found), Err(failed("database down")));
}

#[test]
fn the_first_failure_decides() {
    let found = vec![Ok(Some(user(1))), Err(failed("first")), Ok(None), Err(failed("second"))];
    assert_eq!(collect(found), Err(failed("first")));
    let found = vec![Ok(None), Err(failed("first"))];
    assert_eq!(collect(found), Err(ServerError::EntityNotFound { pos: FIELD_POS }));
}

#[test]
fn entity_or_not_found_by_case() {
    let pos = Pos { line: 9, column: 9 };
    assert_eq!(entity_or_not_found(Ok(Some(user(1))), pos), Ok(user(1)));
    assert_eq!(entity_or_not_found(Ok(None), pos), Err(ServerError::EntityNotFound { pos }));
    assert_eq!(entity_or_not_found(Err(failed("x")), pos), Err(failed("x")));
}

#[test]
fn service_holds_the_rendered_text() {
    assert_eq!(Service::new("type Query".to_string()).sdl, Some("type Query".to_string()));
    assert_eq!(Service::new(String::new()).sdl, Some(String::new()));
}

#[test]
fn export_options_switch_federation_on() {
    assert_eq!(SdlExportOptions::new(), SdlExportOptions { federation: false });
    assert_eq!(SdlExportOptions::new().federation(), SdlExportOptions { federation: true });
    assert_eq!(
        SdlExportOptions::new().federation().federation(),
        SdlExportOptions { federation: true }
    );
}

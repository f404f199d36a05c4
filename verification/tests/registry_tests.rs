use tool_bridge::ai_tools::AiTools;
use tool_bridge::error::{BridgeError, RegistryError, SchemaError};
use tool_bridge::schema::{FieldKind, FieldSpec, ParamType};
use tool_bridge::weather::get_weather_params;

fn registry_router() -> rpc_router::Router {
    rpc_router::Router::builder().build()
}

fn registry_type(name: &str) -> ParamType {
    ParamType {
        name: name.to_string(),
        description: format!("does {name}"),
        fields: vec![FieldSpec {
            name: "query".to_string(),
            doc: "what to look for".to_string(),
            kind: FieldKind::Text,
            required: true,
        }],
    }
}

#[test]
fn distinct_names_register_and_resolve() {
    let tools = AiTools::new(registry_router(), vec![get_weather_params(), registry_type("search")]).unwrap();
    assert_eq!(tools.len(), 2);
    let weather = tools.resolve("get_weather").expect("get_weather resolves");
    assert_eq!(weather.name, "get_weather");
    assert_eq!(weather.expected_schema, get_weather_params());
    let search = tools.resolve("search").expect("search resolves");
    assert_eq!(search.name, "search");
    assert_eq!(search.expected_schema, registry_type("search"));
    assert_eq!(search.descriptor.name, "search");
    assert_eq!(search.descriptor.parameter_schema, registry_type("search").build_schema().unwrap());
}

#[test]
fn same_name_twice_fails_construction() {
    let refused = AiTools::new(registry_router(), vec![registry_type("search"), registry_type("search")]);
    assert!(matches!(
        refused,
        Err(BridgeError::Registry(RegistryError::DuplicateName(ref name))) if name == "search"
    ));
}

#[test]
fn same_name_far_apart_fails_construction() {
    let refused = AiTools::new(
        registry_router(),
        vec![registry_type("a"), registry_type("b"), registry_type("c"), registry_type("a")],
    );
    assert!(matches!(
        refused,
        Err(BridgeError::Registry(RegistryError::DuplicateName(ref name))) if name == "a"
    ));
}

#[test]
fn type_without_schema_fails_construction() {
    let refused = AiTools::new(registry_router(), vec![registry_type("search"), registry_type("")]);
    assert!(matches!(refused, Err(BridgeError::Schema(SchemaError::MissingName))));
}

#[test]
fn first_refused_registration_is_reported() {
    let refused = AiTools::new(
        registry_router(),
        vec![registry_type("search"), registry_type("search"), registry_type("")],
    );
    assert!(matches!(refused, Err(BridgeError::Registry(RegistryError::DuplicateName(_)))));
}

#[test]
fn unregistered_name_does_not_resolve() {
    let tools = AiTools::new(registry_router(), vec![registry_type("search")]).unwrap();
    assert!(tools.resolve("nonexistent").is_none());
    assert!(tools.resolve("").is_none());
    assert!(tools.resolve("Search").is_none());
}

#[test]
fn empty_registry_resolves_nothing() {
    let tools = AiTools::new(registry_router(), vec![]).unwrap();
    assert_eq!(tools.len(), 0);
    assert!(tools.resolve("search").is_none());
    assert!(tools.chat_tools_clone().is_empty());
}

#[test]
fn descriptors_come_in_registration_order() {
    let tools = AiTools::new(
        registry_router(),
        vec![registry_type("zeta"), registry_type("alpha"), get_weather_params()],
    )
    .unwrap();
    let names: Vec<String> = tools.chat_tools_clone().into_iter().map(|tool| tool.name).collect();
    assert_eq!(names, vec!["zeta".to_string(), "alpha".to_string(), "get_weather".to_string()]);
    let again: Vec<String> = tools.chat_tools_clone().into_iter().map(|tool| tool.name).collect();
    assert_eq!(again, names);
}

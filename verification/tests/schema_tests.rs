use tool_bridge::chat::tool_fn_from_type;
use tool_bridge::error::{BridgeError, SchemaError};
use tool_bridge::json::{Json, Member};
use tool_bridge::schema::{FieldKind, FieldSpec, ParamType};
use tool_bridge::weather::{chat_tools, get_weather_params};

fn schema_field(name: &str, kind: FieldKind, required: bool) -> FieldSpec {
    FieldSpec { name: name.to_string(), doc: format!("the {name}"), kind, required }
}

fn schema_type(name: &str, fields: Vec<FieldSpec>) -> ParamType {
    ParamType { name: name.to_string(), description: format!("does {name}"), fields }
}

fn schema_member(key: &str, value: Json) -> Member {
    Member { key: key.to_string(), value }
}

fn schema_text(value: &str) -> Json {
    Json::Text(value.to_string())
}

fn schema_required(schema: &Json) -> Vec<String> {
    match schema.get("required") {
        Some(Json::List(items)) => items
            .iter()
            .map(|item| match item {
                Json::Text(name) => name.clone(),
                other => panic!("not a name: {other:?}"),
            })
            .collect(),
        other => panic!("no list of required names: {other:?}"),
    }
}

#[test]
fn schema_lists_exactly_the_non_optional_fields() {
    let ty = schema_type(
        "search",
        vec![
            schema_field("query", FieldKind::Text, true),
            schema_field("limit", FieldKind::Integer, false),
            schema_field("exact", FieldKind::Boolean, true),
            schema_field("score", FieldKind::Number, false),
        ],
    );
    let schema = ty.build_schema().unwrap();
    assert_eq!(schema_required(&schema), vec!["query".to_string(), "exact".to_string()]);
}

#[test]
fn schema_of_a_type_without_required_fields_requires_nothing() {
    let ty = schema_type("ping", vec![schema_field("note", FieldKind::Text, false)]);
    let schema = ty.build_schema().unwrap();
    assert_eq!(schema_required(&schema), Vec::<String>::new());
}

#[test]
fn schema_mirrors_the_fields_one_for_one() {
    let ty = schema_type(
        "search",
        vec![
            schema_field("query", FieldKind::Text, true),
            schema_field("limit", FieldKind::Integer, false),
            schema_field("score", FieldKind::Number, false),
            schema_field("exact", FieldKind::Boolean, true),
            schema_field(
                "order",
                FieldKind::Choice(vec!["asc".to_string(), "desc".to_string()]),
                false,
            ),
        ],
    );
    let expected = Json::Object(vec![
        schema_member("type", schema_text("object")),
        schema_member(
            "properties",
            Json::Object(vec![
                schema_member(
                    "query",
                    Json::Object(vec![
                        schema_member("type", schema_text("string")),
                        schema_member("description", schema_text("the query")),
                    ]),
                ),
                schema_member(
                    "limit",
                    Json::Object(vec![
                        schema_member("type", schema_text("integer")),
                        schema_member("description", schema_text("the limit")),
                    ]),
                ),
                schema_member(
                    "score",
                    Json::Object(vec![
                        schema_member("type", schema_text("number")),
                        schema_member("description", schema_text("the score")),
                    ]),
                ),
                schema_member(
                    "exact",
                    Json::Object(vec![
                        schema_member("type", schema_text("boolean")),
                        schema_member("description", schema_text("the exact")),
                    ]),
                ),
                schema_member(
                    "order",
                    Json::Object(vec![
                        schema_member("type", schema_text("string")),
                        schema_member("enum", Json::List(vec![schema_text("asc"), schema_text("desc")])),
                        schema_member("description", schema_text("the order")),
                    ]),
                ),
            ]),
        ),
        schema_member("required", Json::List(vec![schema_text("query"), schema_text("exact")])),
    ]);
    assert_eq!(ty.build_schema().unwrap(), expected);
}

#[test]
fn schema_of_a_type_without_fields() {
    let ty = schema_type("now", vec![]);
    let expected = Json::Object(vec![
        schema_member("type", schema_text("object")),
        schema_member("properties", Json::Object(vec![])),
        schema_member("required", Json::List(vec![])),
    ]);
    assert_eq!(ty.check(), Ok(()));
    assert_eq!(ty.build_schema().unwrap(), expected);
}

#[test]
fn type_without_a_name_has_no_schema() {
    let ty = schema_type("", vec![schema_field("query", FieldKind::Text, true)]);
    assert_eq!(ty.check(), Err(SchemaError::MissingName));
    assert_eq!(ty.build_schema(), Err(SchemaError::MissingName));
}

#[test]
fn field_without_a_name_has_no_schema() {
    let ty = schema_type(
        "search",
        vec![schema_field("query", FieldKind::Text, true), schema_field("", FieldKind::Text, false)],
    );
    assert_eq!(ty.build_schema(), Err(SchemaError::UnnamedField(1)));
}

#[test]
fn repeated_field_has_no_schema() {
    let ty = schema_type(
        "search",
        vec![
            schema_field("query", FieldKind::Text, true),
            schema_field("limit", FieldKind::Integer, false),
            schema_field("query", FieldKind::Number, false),
        ],
    );
    assert_eq!(ty.build_schema(), Err(SchemaError::DuplicateField("query".to_string())));
}

#[test]
fn choice_without_values_has_no_schema() {
    let ty = schema_type("search", vec![schema_field("order", FieldKind::Choice(vec![]), true)]);
    assert_eq!(ty.build_schema(), Err(SchemaError::EmptyChoice("order".to_string())));
}

#[test]
fn first_fault_is_reported() {
    let ty = schema_type(
        "search",
        vec![
            schema_field("order", FieldKind::Choice(vec![]), true),
            schema_field("", FieldKind::Text, true),
        ],
    );
    assert_eq!(ty.build_schema(), Err(SchemaError::EmptyChoice("order".to_string())));
    let unnamed = schema_type("", vec![schema_field("", FieldKind::Text, true)]);
    assert_eq!(unnamed.build_schema(), Err(SchemaError::MissingName));
}

#[test]
fn descriptor_of_a_type_carries_name_description_and_schema() {
    let ty = schema_type("search", vec![schema_field("query", FieldKind::Text, true)]);
    let tool = tool_fn_from_type(&ty).unwrap();
    assert_eq!(tool.name, "search");
    assert_eq!(tool.description, "does search");
    assert_eq!(tool.parameter_schema, ty.build_schema().unwrap());
}

#[test]
fn descriptor_of_a_type_without_schema_is_refused() {
    let ty = schema_type("search", vec![schema_field("", FieldKind::Text, true)]);
    let refused = tool_fn_from_type(&ty);
    assert!(matches!(refused, Err(BridgeError::Schema(SchemaError::UnnamedField(0)))));
}

#[test]
fn weather_params_are_location_country_and_unit() {
    let ty = get_weather_params();
    assert_eq!(ty.name, "get_weather");
    assert_eq!(ty.description, "get the weather for a city");
    let names: Vec<&str> = ty.fields.iter().map(|f| f.name.as_str()).collect();
    assert_eq!(names, vec!["location", "country", "unit"]);
    assert!(ty.fields.iter().all(|f| f.required));
    assert_eq!(ty.fields[0].kind, FieldKind::Text);
    assert_eq!(ty.fields[1].kind, FieldKind::Text);
    assert_eq!(
        ty.fields[2].kind,
        FieldKind::Choice(vec!["celsius".to_string(), "fahrenheit".to_string()])
    );
    assert_eq!(ty.check(), Ok(()));
}

#[test]
fn weather_tool_is_the_one_chat_tool() {
    let tools = chat_tools().unwrap();
    assert_eq!(tools.len(), 1);
    assert_eq!(tools[0].name, "get_weather");
    assert_eq!(tools[0].description, "get the weather for a city");
    assert_eq!(
        schema_required(&tools[0].parameter_schema),
        vec!["location".to_string(), "country".to_string(), "unit".to_string()]
    );
    let unit = tools[0]
        .parameter_schema
        .get("properties")
        .and_then(|properties| properties.get("unit"))
        .and_then(|unit| unit.get("enum"));
    assert_eq!(unit, Some(&Json::List(vec![schema_text("celsius"), schema_text("fahrenheit")])));
}

#[test]
fn schema_of_a_list_describes_its_items() {
    let ty = schema_type(
        "tag",
        vec![
            schema_field("tags", FieldKind::List(Box::new(FieldKind::Text)), true),
            schema_field(
                "grid",
                FieldKind::List(Box::new(FieldKind::List(Box::new(FieldKind::Integer)))),
                false,
            ),
        ],
    );
    let expected = Json::Object(vec![
        schema_member("type", schema_text("object")),
        schema_member(
            "properties",
            Json::Object(vec![
                schema_member(
                    "tags",
                    Json::Object(vec![
                        schema_member("type", schema_text("array")),
                        schema_member(
                            "items",
                            Json::Object(vec![schema_member("type", schema_text("string"))]),
                        ),
                        schema_member("description", schema_text("the tags")),
                    ]),
                ),
                schema_member(
                    "grid",
                    Json::Object(vec![
                        schema_member("type", schema_text("array")),
                        schema_member(
                            "items",
                            Json::Object(vec![
                                schema_member("type", schema_text("array")),
                                schema_member(
                                    "items",
                                    Json::Object(vec![schema_member(
                                        "type",
                                        schema_text("integer"),
                                    )]),
                                ),
                            ]),
                        ),
                        schema_member("description", schema_text("the grid")),
                    ]),
                ),
            ]),
        ),
        schema_member("required", Json::List(vec![schema_text("tags")])),
    ]);
    assert_eq!(ty.build_schema().unwrap(), expected);
}

#[test]
fn schema_of_a_nested_object_lists_its_own_required_fields() {
    let ty = schema_type(
        "book",
        vec![
            schema_field(
                "place",
                FieldKind::Record(vec![
                    schema_field("city", FieldKind::Text, true),
                    schema_field("zip", FieldKind::Text, false),
                ]),
                false,
            ),
            schema_field("guests", FieldKind::Integer, true),
        ],
    );
    let schema = ty.build_schema().unwrap();
    assert_eq!(schema_required(&schema), vec!["guests".to_string()]);
    let place = schema
        .get("properties")
        .and_then(|properties| properties.get("place"))
        .expect("the place has its entry");
    assert_eq!(
        place,
        &Json::Object(vec![
            schema_member("type", schema_text("object")),
            schema_member(
                "properties",
                Json::Object(vec![
                    schema_member(
                        "city",
                        Json::Object(vec![
                            schema_member("type", schema_text("string")),
                            schema_member("description", schema_text("the city")),
                        ]),
                    ),
                    schema_member(
                        "zip",
                        Json::Object(vec![
                            schema_member("type", schema_text("string")),
                            schema_member("description", schema_text("the zip")),
                        ]),
                    ),
                ]),
            ),
            schema_member("required", Json::List(vec![schema_text("city")])),
            schema_member("description", schema_text("the place")),
        ])
    );
    assert_eq!(schema_required(place), vec!["city".to_string()]);
}

#[test]
fn fault_within_a_field_is_found() {
    let empty_choice_in_list = schema_type(
        "tag",
        vec![schema_field(
            "tags",
            FieldKind::List(Box::new(FieldKind::Choice(vec![]))),
            true,
        )],
    );
    assert_eq!(
        empty_choice_in_list.build_schema(),
        Err(SchemaError::EmptyChoice("tags".to_string()))
    );
    let repeated_within = schema_type(
        "book",
        vec![
            schema_field("guests", FieldKind::Integer, true),
            schema_field(
                "place",
                FieldKind::Record(vec![
                    schema_field("city", FieldKind::Text, true),
                    schema_field("city", FieldKind::Text, false),
                ]),
                true,
            ),
        ],
    );
    assert_eq!(
        repeated_within.build_schema(),
        Err(SchemaError::DuplicateField("city".to_string()))
    );
    let unnamed_within = schema_type(
        "book",
        vec![schema_field(
            "place",
            FieldKind::Record(vec![
                schema_field("city", FieldKind::Text, true),
                schema_field("", FieldKind::Text, false),
            ]),
            true,
        )],
    );
    assert_eq!(unnamed_within.check(), Err(SchemaError::UnnamedField(1)));
}

#[test]
fn same_name_at_different_depths_is_no_fault() {
    let ty = schema_type(
        "book",
        vec![
            schema_field("name", FieldKind::Text, true),
            schema_field(
                "place",
                FieldKind::Record(vec![schema_field("name", FieldKind::Text, true)]),
                true,
            ),
        ],
    );
    assert_eq!(ty.check(), Ok(()));
}

use tool_bridge::json::{is_integer_text, json_from_parsed, json_of_value, parse_json, Json, Member};

fn json_member(key: &str, value: Json) -> Member {
    Member { key: key.to_string(), value }
}

#[test]
fn parse_reads_each_kind_of_value() {
    assert_eq!(parse_json("null").unwrap(), Json::Null);
    assert_eq!(parse_json("true").unwrap(), Json::Bool(true));
    assert_eq!(parse_json("false").unwrap(), Json::Bool(false));
    assert_eq!(parse_json("\"Paris\"").unwrap(), Json::Text("Paris".to_string()));
    assert_eq!(
        parse_json("[1, \"a\", null]").unwrap(),
        Json::List(vec![Json::Number("1".to_string()), Json::Text("a".to_string()), Json::Null])
    );
}

#[test]
fn parse_keeps_numbers_as_their_text() {
    assert_eq!(parse_json("12").unwrap(), Json::Number("12".to_string()));
    assert_eq!(parse_json("-7").unwrap(), Json::Number("-7".to_string()));
    assert_eq!(parse_json("30.0").unwrap(), Json::Number("30.0".to_string()));
    assert_eq!(parse_json("0.3").unwrap(), Json::Number("0.3".to_string()));
}

#[test]
fn parse_reads_nested_objects() {
    let parsed = parse_json("{\"a\": {\"b\": [true]}, \"c\": \"d\"}").unwrap();
    let expected = Json::Object(vec![
        json_member("a", Json::Object(vec![json_member("b", Json::List(vec![Json::Bool(true)]))])),
        json_member("c", Json::Text("d".to_string())),
    ]);
    assert_eq!(parsed, expected);
}

#[test]
fn parse_copies_the_document_and_not_its_text() {
    // The tree is read out of the text: a text value loses its quotes, and
    // the text of an object is no text value.
    let text = "{\"location\": \"Paris\"}";
    let parsed = parse_json(text).unwrap();
    assert_ne!(parsed, Json::Text(text.to_string()));
    assert_eq!(parsed.get("location"), Some(&Json::Text("Paris".to_string())));
}

#[test]
fn parse_refuses_what_is_no_json() {
    assert!(parse_json("invalid json").is_err());
    assert!(parse_json("").is_err());
    assert!(parse_json("{\"a\": 1").is_err());
    assert!(parse_json("{} {}").is_err());
}

#[test]
fn get_finds_the_first_member_with_the_key() {
    let object = Json::Object(vec![
        json_member("a", Json::Bool(true)),
        json_member("b", Json::Null),
        json_member("a", Json::Bool(false)),
    ]);
    assert_eq!(object.get("a"), Some(&Json::Bool(true)));
    assert_eq!(object.get("b"), Some(&Json::Null));
    assert_eq!(object.get("c"), None);
}

#[test]
fn get_finds_nothing_outside_objects() {
    assert_eq!(Json::Null.get("a"), None);
    assert_eq!(Json::Text("a".to_string()).get("a"), None);
    assert_eq!(Json::List(vec![Json::Text("a".to_string())]).get("a"), None);
}

#[test]
fn clone_holds_the_same_tree() {
    let document = Json::Object(vec![
        json_member("list", Json::List(vec![Json::Number("1".to_string()), Json::Null])),
        json_member("text", Json::text("x")),
    ]);
    assert_eq!(document.clone(), document);
}

#[test]
fn integer_text_is_a_sign_and_digits() {
    assert!(is_integer_text("0"));
    assert!(is_integer_text("12"));
    assert!(is_integer_text("-7"));
    assert!(!is_integer_text(""));
    assert!(!is_integer_text("-"));
    assert!(!is_integer_text("30.0"));
    assert!(!is_integer_text("1e5"));
    assert!(!is_integer_text("+1"));
    assert!(!is_integer_text("1-"));
    assert!(!is_integer_text("١٢"));
}

#[test]
fn value_becomes_the_tree_that_it_holds() {
    let mut map = serde_json::Map::new();
    map.insert("flag".to_string(), serde_json::Value::Bool(true));
    map.insert("count".to_string(), serde_json::Value::from(3));
    map.insert("ratio".to_string(), serde_json::Value::from(0.5));
    map.insert("none".to_string(), serde_json::Value::Null);
    map.insert(
        "list".to_string(),
        serde_json::Value::Array(vec![
            serde_json::Value::String("a".to_string()),
            serde_json::Value::Array(vec![]),
            serde_json::Value::Object(serde_json::Map::new()),
        ]),
    );
    let tree = json_of_value(&serde_json::Value::Object(map));
    assert_eq!(tree.get("flag"), Some(&Json::Bool(true)));
    assert_eq!(tree.get("count"), Some(&Json::Number("3".to_string())));
    assert_eq!(tree.get("ratio"), Some(&Json::Number("0.5".to_string())));
    assert_eq!(tree.get("none"), Some(&Json::Null));
    assert_eq!(
        tree.get("list"),
        Some(&Json::List(vec![
            Json::Text("a".to_string()),
            Json::List(vec![]),
            Json::Object(vec![]),
        ]))
    );
    match &tree {
        Json::Object(members) => assert_eq!(members.len(), 5),
        other => panic!("expected an object, got {other:?}"),
    }
}

#[test]
fn scalar_values_become_scalar_trees() {
    assert_eq!(json_of_value(&serde_json::Value::Null), Json::Null);
    assert_eq!(json_of_value(&serde_json::Value::Bool(false)), Json::Bool(false));
    assert_eq!(json_of_value(&serde_json::Value::from(-12)), Json::Number("-12".to_string()));
    assert_eq!(json_of_value(&serde_json::Value::from(30.0)), Json::Number("30.0".to_string()));
    assert_eq!(json_of_value(&serde_json::Value::from("")), Json::Text(String::new()));
}

#[test]
fn parsed_value_or_error_is_passed_on() {
    let parsed = json_from_parsed(Ok(serde_json::Value::from(vec!["x", "y"]))).unwrap();
    assert_eq!(parsed, Json::List(vec![Json::Text("x".to_string()), Json::Text("y".to_string())]));
    let error = serde_json::from_str::<serde_json::Value>("[1,").unwrap_err();
    let text = error.to_string();
    assert_eq!(json_from_parsed(Err(error)).unwrap_err().to_string(), text);
}

use tool_bridge::error::ArgumentError;
use tool_bridge::json::{parse_json, Json, Member};
use tool_bridge::schema::{FieldKind, FieldSpec, ParamType};
use tool_bridge::weather::get_weather_params;

fn args_field(name: &str, kind: FieldKind, required: bool) -> FieldSpec {
    FieldSpec { name: name.to_string(), doc: String::new(), kind, required }
}

fn args_type(fields: Vec<FieldSpec>) -> ParamType {
    ParamType { name: "tool".to_string(), description: String::new(), fields }
}

fn args_json(text: &str) -> Json {
    parse_json(text).expect("the test's arguments are JSON")
}

#[test]
fn arguments_with_every_required_field_fit() {
    let ty = get_weather_params();
    let arguments =
        args_json("{\"location\": \"Paris\", \"country\": \"France\", \"unit\": \"celsius\"}");
    assert_eq!(ty.check_arguments(&arguments), Ok(()));
}

#[test]
fn arguments_without_a_required_field_are_refused() {
    let ty = get_weather_params();
    let arguments = args_json("{\"location\": \"Paris\", \"country\": \"France\"}");
    assert_eq!(
        ty.check_arguments(&arguments),
        Err(ArgumentError::MissingField("unit".to_string()))
    );
    let empty = args_json("{}");
    assert_eq!(
        ty.check_arguments(&empty),
        Err(ArgumentError::MissingField("location".to_string()))
    );
}

#[test]
fn arguments_with_unknown_fields_still_fit() {
    let ty = get_weather_params();
    let arguments = args_json(
        "{\"when\": \"tomorrow\", \"location\": \"Paris\", \"country\": \"France\", \
         \"unit\": \"fahrenheit\", \"extra\": {\"deep\": [1, 2, 3]}}",
    );
    assert_eq!(ty.check_arguments(&arguments), Ok(()));
}

#[test]
fn unknown_fields_do_not_stand_in_for_required_ones() {
    let ty = get_weather_params();
    let arguments = args_json("{\"city\": \"Paris\", \"country\": \"France\", \"unit\": \"celsius\"}");
    assert_eq!(
        ty.check_arguments(&arguments),
        Err(ArgumentError::MissingField("location".to_string()))
    );
}

#[test]
fn arguments_that_are_no_object_are_refused() {
    let ty = get_weather_params();
    assert_eq!(ty.check_arguments(&Json::Null), Err(ArgumentError::NotAnObject));
    assert_eq!(ty.check_arguments(&args_json("[]")), Err(ArgumentError::NotAnObject));
    assert_eq!(ty.check_arguments(&args_json("\"Paris\"")), Err(ArgumentError::NotAnObject));
    let nothing_required = args_type(vec![]);
    assert_eq!(nothing_required.check_arguments(&args_json("3")), Err(ArgumentError::NotAnObject));
    assert_eq!(nothing_required.check_arguments(&args_json("{}")), Ok(()));
}

#[test]
fn value_of_another_type_is_refused() {
    let ty = get_weather_params();
    let arguments = args_json("{\"location\": \"Paris\", \"country\": 33, \"unit\": \"celsius\"}");
    assert_eq!(
        ty.check_arguments(&arguments),
        Err(ArgumentError::WrongType("country".to_string()))
    );
    let unit_is_number =
        args_json("{\"location\": \"Paris\", \"country\": \"France\", \"unit\": 1}");
    assert_eq!(
        ty.check_arguments(&unit_is_number),
        Err(ArgumentError::WrongType("unit".to_string()))
    );
}

#[test]
fn text_outside_the_choices_is_refused() {
    let ty = get_weather_params();
    let arguments =
        args_json("{\"location\": \"Paris\", \"country\": \"France\", \"unit\": \"kelvin\"}");
    assert_eq!(
        ty.check_arguments(&arguments),
        Err(ArgumentError::UnknownChoice("unit".to_string(), "kelvin".to_string()))
    );
    let capital =
        args_json("{\"location\": \"Paris\", \"country\": \"France\", \"unit\": \"Celsius\"}");
    assert_eq!(
        ty.check_arguments(&capital),
        Err(ArgumentError::UnknownChoice("unit".to_string(), "Celsius".to_string()))
    );
}

#[test]
fn first_unserved_field_is_reported() {
    let ty = get_weather_params();
    let arguments = args_json("{\"location\": 1, \"unit\": \"kelvin\"}");
    assert_eq!(
        ty.check_arguments(&arguments),
        Err(ArgumentError::WrongType("location".to_string()))
    );
}

#[test]
fn each_kind_takes_its_own_values() {
    let ty = args_type(vec![
        args_field("text", FieldKind::Text, true),
        args_field("integer", FieldKind::Integer, true),
        args_field("number", FieldKind::Number, true),
        args_field("flag", FieldKind::Boolean, true),
    ]);
    let fitting =
        args_json("{\"text\": \"a\", \"integer\": -12, \"number\": 0.5, \"flag\": false}");
    assert_eq!(ty.check_arguments(&fitting), Ok(()));
    let whole_number =
        args_json("{\"text\": \"a\", \"integer\": 12, \"number\": 12, \"flag\": true}");
    assert_eq!(ty.check_arguments(&whole_number), Ok(()));
    let fraction = args_json("{\"text\": \"a\", \"integer\": 1.5, \"number\": 1, \"flag\": true}");
    assert_eq!(
        ty.check_arguments(&fraction),
        Err(ArgumentError::WrongType("integer".to_string()))
    );
    let number_as_text =
        args_json("{\"text\": \"a\", \"integer\": 1, \"number\": \"1\", \"flag\": true}");
    assert_eq!(
        ty.check_arguments(&number_as_text),
        Err(ArgumentError::WrongType("number".to_string()))
    );
    let flag_as_number =
        args_json("{\"text\": \"a\", \"integer\": 1, \"number\": 1, \"flag\": 0}");
    assert_eq!(
        ty.check_arguments(&flag_as_number),
        Err(ArgumentError::WrongType("flag".to_string()))
    );
    let text_as_flag =
        args_json("{\"text\": true, \"integer\": 1, \"number\": 1, \"flag\": true}");
    assert_eq!(
        ty.check_arguments(&text_as_flag),
        Err(ArgumentError::WrongType("text".to_string()))
    );
}

#[test]
fn optional_field_may_be_absent_or_null() {
    let ty = args_type(vec![
        args_field("query", FieldKind::Text, true),
        args_field("limit", FieldKind::Integer, false),
    ]);
    assert_eq!(ty.check_arguments(&args_json("{\"query\": \"a\"}")), Ok(()));
    assert_eq!(ty.check_arguments(&args_json("{\"query\": \"a\", \"limit\": null}")), Ok(()));
    assert_eq!(ty.check_arguments(&args_json("{\"query\": \"a\", \"limit\": 3}")), Ok(()));
    assert_eq!(
        ty.check_arguments(&args_json("{\"query\": \"a\", \"limit\": \"3\"}")),
        Err(ArgumentError::WrongType("limit".to_string()))
    );
}

#[test]
fn required_field_may_not_be_null() {
    let ty = args_type(vec![args_field("query", FieldKind::Text, true)]);
    assert_eq!(
        ty.check_arguments(&args_json("{\"query\": null}")),
        Err(ArgumentError::WrongType("query".to_string()))
    );
}

#[test]
fn first_member_under_a_name_counts() {
    let ty = args_type(vec![args_field("query", FieldKind::Text, true)]);
    let arguments = Json::Object(vec![
        Member { key: "query".to_string(), value: Json::Bool(true) },
        Member { key: "query".to_string(), value: Json::Text("a".to_string()) },
    ]);
    assert_eq!(
        ty.check_arguments(&arguments),
        Err(ArgumentError::WrongType("query".to_string()))
    );
}

#[test]
fn list_takes_values_of_its_kind() {
    let ty = args_type(vec![args_field(
        "tags",
        FieldKind::List(Box::new(FieldKind::Choice(vec!["a".to_string(), "b".to_string()]))),
        true,
    )]);
    assert_eq!(ty.check_arguments(&args_json("{\"tags\": []}")), Ok(()));
    assert_eq!(ty.check_arguments(&args_json("{\"tags\": [\"a\", \"b\", \"a\"]}")), Ok(()));
    assert_eq!(
        ty.check_arguments(&args_json("{\"tags\": [\"a\", \"c\", 1]}")),
        Err(ArgumentError::UnknownChoice("tags".to_string(), "c".to_string()))
    );
    assert_eq!(
        ty.check_arguments(&args_json("{\"tags\": [\"a\", 1, \"c\"]}")),
        Err(ArgumentError::WrongType("tags".to_string()))
    );
    assert_eq!(
        ty.check_arguments(&args_json("{\"tags\": \"a\"}")),
        Err(ArgumentError::WrongType("tags".to_string()))
    );
    assert_eq!(
        ty.check_arguments(&args_json("{\"tags\": [null]}")),
        Err(ArgumentError::WrongType("tags".to_string()))
    );
}

#[test]
fn list_of_lists_is_checked_to_the_bottom() {
    let ty = args_type(vec![args_field(
        "grid",
        FieldKind::List(Box::new(FieldKind::List(Box::new(FieldKind::Integer)))),
        true,
    )]);
    assert_eq!(ty.check_arguments(&args_json("{\"grid\": [[1, 2], [], [3]]}")), Ok(()));
    assert_eq!(
        ty.check_arguments(&args_json("{\"grid\": [[1, 2], [3.5]]}")),
        Err(ArgumentError::WrongType("grid".to_string()))
    );
    assert_eq!(
        ty.check_arguments(&args_json("{\"grid\": [1]}")),
        Err(ArgumentError::WrongType("grid".to_string()))
    );
}

#[test]
fn nested_object_is_checked_against_its_own_fields() {
    let ty = args_type(vec![
        args_field(
            "place",
            FieldKind::Record(vec![
                args_field("city", FieldKind::Text, true),
                args_field("zip", FieldKind::Text, false),
            ]),
            true,
        ),
        args_field("guests", FieldKind::Integer, true),
    ]);
    assert_eq!(
        ty.check_arguments(&args_json("{\"place\": {\"city\": \"Paris\"}, \"guests\": 2}")),
        Ok(())
    );
    assert_eq!(
        ty.check_arguments(&args_json(
            "{\"place\": {\"city\": \"Paris\", \"floor\": 3}, \"guests\": 2, \"city\": 1}"
        )),
        Ok(())
    );
    assert_eq!(
        ty.check_arguments(&args_json("{\"place\": {\"zip\": \"75001\"}, \"guests\": 2}")),
        Err(ArgumentError::MissingField("city".to_string()))
    );
    assert_eq!(
        ty.check_arguments(&args_json("{\"place\": {\"city\": 7}, \"guests\": 2}")),
        Err(ArgumentError::WrongType("city".to_string()))
    );
    assert_eq!(
        ty.check_arguments(&args_json("{\"place\": \"Paris\", \"guests\": 2}")),
        Err(ArgumentError::WrongType("place".to_string()))
    );
    assert_eq!(
        ty.check_arguments(&args_json("{\"city\": \"Paris\", \"guests\": 2}")),
        Err(ArgumentError::MissingField("place".to_string()))
    );
}

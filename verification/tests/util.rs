use flexys_core::json_value::JsonValue;
use flexys_core::util::is_date_field;

fn s(text: &str) -> JsonValue {
    JsonValue::Str(text.to_string())
}

fn obj(entries: Vec<(&str, JsonValue)>) -> JsonValue {
    JsonValue::Object(
        entries
            .into_iter()
            .map(|(k, v)| (k.to_string(), v))
            .collect(),
    )
}

#[test]
fn test_is_date_field_valid() {
    let schema = obj(vec![(
        "properties",
        obj(vec![(
            "date_field",
            obj(vec![("type", s("string")), ("format", s("date"))]),
        )]),
    )]);
    assert_eq!(is_date_field(&schema, "date_field"), true);
}

#[test]
fn test_is_date_field_wrong_type() {
    let schema = obj(vec![(
        "properties",
        obj(vec![(
            "date_field",
            obj(vec![("type", s("integer")), ("format", s("date"))]),
        )]),
    )]);
    assert_eq!(is_date_field(&schema, "date_field"), false);
}

#[test]
fn test_is_date_field_wrong_format() {
    let schema = obj(vec![(
        "properties",
        obj(vec![(
            "date_field",
            obj(vec![("type", s("string")), ("format", s("email"))]),
        )]),
    )]);
    assert_eq!(is_date_field(&schema, "date_field"), false);
}

#[test]
fn test_is_date_field_missing_type() {
    let schema = obj(vec![(
        "properties",
        obj(vec![("date_field", obj(vec![("format", s("date"))]))]),
    )]);
    assert_eq!(is_date_field(&schema, "date_field"), false);
}

#[test]
fn test_is_date_field_missing_format() {
    let schema = obj(vec![(
        "properties",
        obj(vec![("date_field", obj(vec![("type", s("string"))]))]),
    )]);
    assert_eq!(is_date_field(&schema, "date_field"), false);
}

#[test]
fn test_is_date_field_field_not_found() {
    let schema = obj(vec![("properties", obj(vec![]))]);
    assert_eq!(is_date_field(&schema, "non_existent_field"), false);
}

#[test]
fn test_is_date_field_schema_not_object() {
    let schema = JsonValue::Array(vec![]);
    assert_eq!(is_date_field(&schema, "any_field"), false);
}

#[test]
fn test_is_date_field_no_properties() {
    let schema = obj(vec![]);
    assert_eq!(is_date_field(&schema, "any_field"), false);
}

#[test]
fn test_is_date_field_properties_not_object() {
    let schema = obj(vec![("properties", JsonValue::Array(vec![]))]);
    assert_eq!(is_date_field(&schema, "any_field"), false);
}

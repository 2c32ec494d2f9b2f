use flexys_core::json_value::JsonValue;
use flexys_core::validation::{merge_json_objects, validate_json, validation_outcome};

fn s(text: &str) -> JsonValue {
    JsonValue::Str(text.to_string())
}

fn obj(entries: Vec<(&str, JsonValue)>) -> JsonValue {
    JsonValue::Object(
        entries
            .into_iter()
            .map(|(k, v)| (k.to_string(), v))
            .collect(),
    )
}

fn doc(text: &str) -> serde_json::Value {
    serde_json::from_str(text).unwrap()
}

#[test]
fn test_validate_json_errors_messages_contain_paths() {
    let schema = doc(
        r#"{
          "type": "object",
          "$schema": "http://json-schema.org/draft-07/schema#",
          "properties": {
            "x": { "type": "number" },
            "y": { "type": "number" }
          }
        }"#,
    );
    let inputs = doc(r#"{ "x": "wibble", "y": "wobble" }"#);

    let result = validate_json(&schema, &inputs);
    assert!(result.is_err());
    let message = result.unwrap_err();
    assert!(
        message.starts_with(
            r#"Json failed validation, error(s): Validation Error ["wibble" is not of type "number"]. Schema Path [/properties/x/type]. Instance Path [/x]. Instance:"#
        ),
        "unexpected message: {message}"
    );
}

#[test]
fn validate_workflow_input_accepts_valid_inputs() {
    let schema = doc(
        r#"{
            "type": "object",
            "properties": { "testKey": { "type": "string" } },
            "required": ["testKey"]
        }"#,
    );
    let inputs = doc(r#"{ "testKey": "testValue" }"#);

    let result = validate_json(&schema, &inputs);
    assert_eq!(result.ok(), Some(()));
}

#[test]
fn validate_workflow_input_rejects_invalid_inputs() {
    let schema = doc(
        r#"{
            "type": "object",
            "properties": { "requiredKey": { "type": "string" } },
            "required": ["requiredKey"]
        }"#,
    );
    let inputs = doc(r#"{ "wrongKey": "testValue" }"#);

    let result = validate_json(&schema, &inputs);
    assert!(result.is_err());
    let message = result.unwrap_err();
    assert!(
        message.starts_with(
            r#"Json failed validation, error(s): Validation Error ["requiredKey" is a required property]. Schema Path [/required]. Instance Path []. Instance:"#
        ),
        "unexpected message: {message}"
    );
}

#[test]
fn merge_json_objects_returns_failure_when_first_value_is_not_an_object() {
    let obj1 = s("foo");
    let obj2 = obj(vec![("baz", s("bing"))]);

    let result = merge_json_objects(obj1, obj2);

    assert_eq!(
        result.unwrap_err(),
        "value required to be object to merge. Instead got \"foo\""
    )
}

#[test]
fn merge_json_objects_returns_failure_when_second_value_is_not_an_object() {
    let obj1 = obj(vec![("foo", s("bar"))]);
    let obj2 = JsonValue::Int(1);

    let result = merge_json_objects(obj1, obj2);

    assert_eq!(
        result.unwrap_err(),
        "value required to be object to merge. Instead got 1"
    )
}

#[test]
fn merge_json_objects_merges_two_disparate_objects() {
    let obj1 = obj(vec![("foo", s("bar"))]);
    let obj2 = obj(vec![("baz", s("bing"))]);

    let result =
        merge_json_objects(obj1, obj2).expect("Two objects should have merged successfully");

    assert_eq!(result, obj(vec![("foo", s("bar")), ("baz", s("bing"))]));
}

#[test]
fn merge_json_objects_merges_two_objects_with_collision_favours_the_second() {
    let obj1 = obj(vec![("foo", s("bar"))]);
    let obj2 = obj(vec![("foo", s("boom")), ("baz", s("bing"))]);

    let result =
        merge_json_objects(obj1, obj2).expect("Two objects should have merged successfully");

    assert_eq!(result, obj(vec![("foo", s("boom")), ("baz", s("bing"))]));
}

#[test]
fn merge_json_objects_rejects_two_non_objects() {
    let result = merge_json_objects(JsonValue::Int(1), JsonValue::Bool(true));
    assert_eq!(
        result.unwrap_err(),
        "Both values required to be object to merge. Neither value was an object. Instead got: 1 AND true"
    );
}

#[test]
fn merge_error_pretty_prints_an_array_offender() {
    let obj1 = obj(vec![("foo", s("bar"))]);
    let offender = JsonValue::Array(vec![JsonValue::Int(1)]);
    let result = merge_json_objects(obj1, offender);
    assert_eq!(
        result.unwrap_err(),
        "value required to be object to merge. Instead got [\n  1\n]"
    );
}

#[test]
fn validation_outcome_is_ok_exactly_on_compile_and_accept() {
    assert_eq!(validation_outcome(Ok(()), true, Vec::new()), Ok(()));

    let rejected = validation_outcome(Ok(()), false, Vec::new());
    assert_eq!(
        rejected.unwrap_err(),
        "Json failed validation, error(s): Missing Error"
    );

    let line = (
        "boom".to_string(),
        "/properties/x".to_string(),
        "/x".to_string(),
        "1".to_string(),
    );
    let rejected_with_parts = validation_outcome(Ok(()), false, vec![line]);
    assert_eq!(
        rejected_with_parts.unwrap_err(),
        "Json failed validation, error(s): Validation Error [boom]. Schema Path [/properties/x]. Instance Path [/x]. Instance: 1"
    );

    let uncompiled = validation_outcome(Err("bad schema".to_string()), true, Vec::new());
    assert_eq!(
        uncompiled.unwrap_err(),
        "Invalid json schema, error: bad schema"
    );
}

#[test]
fn validate_json_reports_an_invalid_schema() {
    let schema = doc(r#"{ "type": "no-such-type" }"#);
    let inputs = doc(r#"{}"#);
    let result = validate_json(&schema, &inputs);
    let message = result.unwrap_err();
    assert!(
        message.starts_with("Invalid json schema, error: "),
        "unexpected message: {message}"
    );
}

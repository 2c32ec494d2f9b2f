use flexys_core::json_value::JsonValue;
use flexys_core::shutdown::should_shutdown;

fn s(text: &str) -> JsonValue {
    JsonValue::Str(text.to_string())
}

fn obj(pairs: Vec<(&str, JsonValue)>) -> JsonValue {
    JsonValue::Object(pairs.into_iter().map(|(k, v)| (k.to_string(), v)).collect())
}

#[test]
fn scalars_render_as_their_json_text() {
    assert_eq!(JsonValue::Null.to_json_text(), "null");
    assert_eq!(JsonValue::Bool(true).to_json_text(), "true");
    assert_eq!(JsonValue::Bool(false).to_json_text(), "false");
    assert_eq!(JsonValue::Int(0).to_json_text(), "0");
    assert_eq!(JsonValue::Int(1).to_json_text(), "1");
    assert_eq!(JsonValue::Int(80990).to_json_text(), "80990");
    assert_eq!(JsonValue::Int(-45).to_json_text(), "-45");
    assert_eq!(
        JsonValue::Int(i64::MIN).to_json_text(),
        "-9223372036854775808"
    );
    assert_eq!(s("foo").to_json_text(), "\"foo\"");
}

#[test]
fn strings_escape_quotes_backslashes_and_controls() {
    assert_eq!(s("say \"hi\"").to_json_text(), r#""say \"hi\"""#);
    assert_eq!(s("a\\b").to_json_text(), r#""a\\b""#);
    assert_eq!(s("line\nbreak\ttab\rret").to_json_text(), r#""line\nbreak\ttab\rret""#);
}

#[test]
fn arrays_and_objects_render_with_commas_and_colons() {
    let value = obj(vec![
        ("items", JsonValue::Array(vec![JsonValue::Int(1), s("two"), JsonValue::Null])),
        ("empty", JsonValue::Array(vec![])),
        ("nested", obj(vec![("k", JsonValue::Bool(false))])),
    ]);
    assert_eq!(
        value.to_json_text(),
        r#"{"items":[1,"two",null],"empty":[],"nested":{"k":false}}"#
    );
    assert_eq!(obj(vec![]).to_json_text(), "{}");
}

#[test]
fn get_finds_the_first_entry_with_the_key() {
    let value = obj(vec![("a", JsonValue::Int(1)), ("b", JsonValue::Int(2))]);
    assert_eq!(value.get("a"), Some(&JsonValue::Int(1)));
    assert_eq!(value.get("b"), Some(&JsonValue::Int(2)));
    assert_eq!(value.get("c"), None);
    assert_eq!(JsonValue::Int(3).get("a"), None);
}

#[test]
fn as_str_and_is_object_tell_the_kinds_apart() {
    assert!(obj(vec![]).is_object());
    assert!(!JsonValue::Null.is_object());
    assert_eq!(s("x").as_str().map(|v| v.as_str()), Some("x"));
    assert_eq!(JsonValue::Int(1).as_str(), None);
}

#[test]
fn deep_clone_copies_the_whole_value() {
    let value = obj(vec![
        ("k", JsonValue::Array(vec![s("v"), JsonValue::Int(-7)])),
        ("m", JsonValue::Null),
    ]);
    let copied = value.deep_clone();
    assert_eq!(copied, value);
}

#[test]
fn control_characters_escape_as_serde_json_does() {
    let value = s("bell\u{7} back\u{8} feed\u{c}");
    let doc = serde_json::Value::String("bell\u{7} back\u{8} feed\u{c}".to_string());
    assert_eq!(value.to_json_text(), serde_json::to_string(&doc).unwrap());
    assert_eq!(value.to_json_text(), "\"bell\\u0007 back\\b feed\\f\"");
}

#[test]
fn pretty_text_matches_the_real_pretty_printer() {
    let value = obj(vec![
        ("empty", JsonValue::Array(vec![])),
        ("items", JsonValue::Array(vec![JsonValue::Int(1), s("two")])),
        ("nested", obj(vec![("k", JsonValue::Bool(false))])),
    ]);
    let doc: serde_json::Value = serde_json::from_str(
        "{\"empty\": [], \"items\": [1, \"two\"], \"nested\": {\"k\": false}}",
    )
    .unwrap();
    assert_eq!(
        value.to_pretty_json_text(),
        serde_json::to_string_pretty(&doc).unwrap()
    );
    assert_eq!(s("foo").to_pretty_json_text(), "\"foo\"");
    assert_eq!(JsonValue::Int(1).to_pretty_json_text(), "1");
}

#[test]
fn serialized_text_parses_back_with_a_real_json_parser() {
    let value = obj(vec![
        ("text", s("say \"hi\"\nagain\\")),
        ("count", JsonValue::Int(-12)),
        ("flags", JsonValue::Array(vec![JsonValue::Bool(true), JsonValue::Null])),
    ]);
    let parsed: serde_json::Value = serde_json::from_str(&value.to_json_text()).unwrap();
    let expected: serde_json::Value = serde_json::from_str(
        "{\"text\": \"say \\\"hi\\\"\\nagain\\\\\", \"count\": -12, \"flags\": [true, null]}",
    )
    .unwrap();
    assert_eq!(parsed, expected);
}

#[test]
fn shutdown_fires_only_on_a_strictly_newer_modification() {
    assert!(should_shutdown(Some(5), 4));
    assert!(!should_shutdown(Some(4), 4));
    assert!(!should_shutdown(Some(3), 4));
    assert!(!should_shutdown(None, 4));
}

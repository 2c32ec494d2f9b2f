use flexys_core::json_value::JsonValue;
use flexys_core::observability::FlatJsonLayer;

fn s(text: &str) -> JsonValue {
    JsonValue::Str(text.to_string())
}

fn entries(pairs: Vec<(&str, JsonValue)>) -> Vec<(String, JsonValue)> {
    pairs.into_iter().map(|(k, v)| (k.to_string(), v)).collect()
}

fn obj(pairs: Vec<(&str, JsonValue)>) -> JsonValue {
    JsonValue::Object(entries(pairs))
}

#[test]
fn context_builder_produces_flattened_map() {
    let span_storages = vec![
        Some(entries(vec![
            ("map1Key", obj(vec![("map1NestedKey", s("map1NestedValue"))])),
            (
                "map1Key2",
                obj(vec![("map1NestedKey2", s("map1NestedValue2"))]),
            ),
        ])),
        Some(entries(vec![(
            "map2Key",
            obj(vec![
                ("map2NestedKey1", s("map2NestedValue1")),
                ("map2NestedKey2", s("map2NestedValue2")),
            ]),
        )])),
        None,
    ];
    let resulting_context = FlatJsonLayer::collect_span_fields(span_storages);

    assert_eq!(
        resulting_context,
        entries(vec![
            ("map1Key", obj(vec![("map1NestedKey", s("map1NestedValue"))])),
            (
                "map1Key2",
                obj(vec![("map1NestedKey2", s("map1NestedValue2"))]),
            ),
            (
                "map2Key",
                obj(vec![
                    ("map2NestedKey1", s("map2NestedValue1")),
                    ("map2NestedKey2", s("map2NestedValue2")),
                ]),
            ),
        ])
    )
}

#[test]
fn later_spans_override_earlier_fields_on_a_shared_key() {
    let span_storages = vec![
        Some(entries(vec![("key", s("outer")), ("only", s("kept"))])),
        Some(entries(vec![("key", s("inner"))])),
    ];
    let resulting_context = FlatJsonLayer::collect_span_fields(span_storages);
    assert_eq!(
        resulting_context,
        entries(vec![("only", s("kept")), ("key", s("inner"))])
    );
}

#[test]
fn trace_output_message_is_message_from_payload() {
    let payload = entries(vec![
        ("message", s("this is a message")),
        ("different_field", JsonValue::Int(123)),
    ]);
    let resulting_value =
        FlatJsonLayer::build_output(payload, "testTarget", "testName", "INFO", "testParent");
    assert_eq!(
        resulting_value.get("message"),
        Some(&s("this is a message"))
    )
}

#[test]
fn trace_output_contains_log_fields() {
    let payload = entries(vec![
        ("message", s("this is a message")),
        ("different_field", JsonValue::Int(123)),
    ]);
    let expected_fields = obj(vec![
        ("message", s("this is a message")),
        ("different_field", JsonValue::Int(123)),
    ]);
    let resulting_value =
        FlatJsonLayer::build_output(payload, "testTarget", "testName", "INFO", "testParent");
    assert_eq!(resulting_value.get("fields"), Some(&expected_fields))
}

#[test]
fn trace_output_does_not_include_none_message() {
    let payload = entries(vec![
        ("fieldA", JsonValue::Int(123)),
        ("fieldB", JsonValue::Int(123)),
    ]);
    let resulting_value =
        FlatJsonLayer::build_output(payload, "testTarget", "testName", "INFO", "testParent");
    assert_eq!(resulting_value.get("message"), None)
}

#[test]
fn trace_output_names_severity_parent_and_target() {
    let payload = entries(vec![]);
    let resulting_value =
        FlatJsonLayer::build_output(payload, "testTarget", "testName", "INFO", "testParent");
    assert_eq!(resulting_value.get("name"), Some(&s("testName")));
    assert_eq!(resulting_value.get("severity"), Some(&s("INFO")));
    assert_eq!(resulting_value.get("parent"), Some(&s("testParent")));
    assert_eq!(resulting_value.get("target"), Some(&s("testTarget")));
}

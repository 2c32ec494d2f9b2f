//! Schema inspection helpers.

use vstd::prelude::*;
use crate::json_value::{JsonValue, json_get, string_eq_str};

verus! {

/// Whether `field_name`, inside the schema's `properties` section, is
/// declared as a string with format `date`. Anything missing or of the
/// wrong shape along the way makes this false.
pub open spec fn is_date_field_spec(schema: JsonValue, field_name: Seq<char>) -> bool {
    match json_get(schema, "properties"@) {
        Some(properties) => match json_get(properties, field_name) {
            Some(field) => {
                let type_value = json_get(field, "type"@);
                let format_value = json_get(field, "format"@);
                (type_value matches Some(JsonValue::Str(t)) && t@ == "string"@) && (format_value
                    matches Some(JsonValue::Str(f)) && f@ == "date"@)
            },
            None => false,
        },
        None => false,
    }
}

/// Determines if a specific field within the `properties` section of a JSON
/// schema is a date field: a string-typed field whose format is `date`.
/// Returns false if the field or the `properties` section does not exist,
/// or if any value along the way is not of the expected kind.
pub fn is_date_field(schema: &JsonValue, field_name: &str) -> (r: bool)
    ensures
        r == is_date_field_spec(*schema, field_name@),
{
    if !schema.is_object() {
        return false;
    }
    let properties = match schema.get("properties") {
        Some(p) => p,
        None => {
            return false;
        },
    };
    let field_value = match properties.get(field_name) {
        Some(f) => f,
        None => {
            return false;
        },
    };
    let type_ok: bool = match field_value.get("type") {
        Some(type_value) => match type_value.as_str() {
            Some(t) => string_eq_str(t, "string"),
            None => false,
        },
        None => false,
    };
    if !type_ok {
        return false;
    }
    match field_value.get("format") {
        Some(format_value) => match format_value.as_str() {
            Some(f) => string_eq_str(f, "date"),
            None => false,
        },
        None => false,
    }
}

} // verus!

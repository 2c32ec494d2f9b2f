//! Building flattened JSON log records: span fields collected root-first
//! into one flat map, and the output record around an event's payload.
//! Hooking these into a tracing subscriber is the surrounding
//! application's concern; the record construction itself is verified.

use vstd::prelude::*;
use vstd::string::StringExecFns;
use crate::json_value::{JsonValue, entries_get, json_eq, obj_lookup};
use crate::validation::{merge_entry_lists, merged_entries};

verus! {

/// Formats log events as single-line JSON records with the span fields
/// flattened beside the event's own.
pub struct FlatJsonLayer {}

/// The flat field map collected from a chain of span field storages, later
/// spans overriding earlier ones on a shared key, starting from `acc`.
pub open spec fn collected_fields(
    storages: Seq<Option<Vec<(String, JsonValue)>>>,
    acc: Seq<(String, JsonValue)>,
) -> Seq<(String, JsonValue)>
    decreases storages.len(),
{
    if storages.len() == 0 {
        acc
    } else {
        match storages[0] {
            Some(m) => collected_fields(storages.drop_first(), merged_entries(acc, m@)),
            None => collected_fields(storages.drop_first(), acc),
        }
    }
}

/// An entry holding a string value under a given key.
pub open spec fn str_field(entry: (String, JsonValue), key: Seq<char>, text: Seq<char>) -> bool {
    entry.0@ == key && (entry.1 matches JsonValue::Str(s) && s@ == text)
}

impl FlatJsonLayer {
    /// Collects the field storages of a span chain, root first, into one
    /// flat map: a span without storage contributes nothing, and on a
    /// shared key a later span's value wins.
    pub fn collect_span_fields(span_storages: Vec<Option<Vec<(String, JsonValue)>>>) -> (fields:
        Vec<(String, JsonValue)>)
        ensures
            fields@ == collected_fields(span_storages@, Seq::empty()),
    {
        let mut rest = span_storages;
        let mut acc: Vec<(String, JsonValue)> = Vec::new();
        proof {
            assert(acc@ =~= Seq::<(String, JsonValue)>::empty());
        }
        while rest.len() > 0
            invariant
                collected_fields(span_storages@, Seq::<(String, JsonValue)>::empty())
                    == collected_fields(rest@, acc@),
            decreases rest@.len(),
        {
            let ghost rest_pre = rest@;
            let storage = rest.remove(0);
            proof {
                assert(rest@ =~= rest_pre.drop_first());
                assert(rest_pre[0] == storage);
            }
            match storage {
                Some(m) => {
                    acc = merge_entry_lists(acc, m);
                },
                None => {},
            }
        }
        acc
    }

    /// Builds the output record for one event: the payload's `message`
    /// value (when there is one) in front, then the event's name,
    /// severity, parent span, the whole payload under `fields`, and the
    /// target — in that order, and nothing else.
    pub fn build_output(
        payload: Vec<(String, JsonValue)>,
        target: &str,
        name: &str,
        severity: &str,
        parent: &str,
    ) -> (r: JsonValue)
        ensures
            obj_lookup(payload@, "message"@) matches Some(m) ==> (r matches JsonValue::Object(es)
                && es@.len() == 6 && es@[0].0@ == "message"@ && json_eq(es@[0].1, m) && str_field(
                es@[1],
                "name"@,
                name@,
            ) && str_field(es@[2], "severity"@, severity@) && str_field(es@[3], "parent"@, parent@)
                && es@[4].0@ == "fields"@ && es@[4].1 == JsonValue::Object(payload) && str_field(
                es@[5],
                "target"@,
                target@,
            )),
            obj_lookup(payload@, "message"@) is None ==> (r matches JsonValue::Object(es)
                && es@.len() == 5 && str_field(es@[0], "name"@, name@) && str_field(
                es@[1],
                "severity"@,
                severity@,
            ) && str_field(es@[2], "parent"@, parent@) && es@[3].0@ == "fields"@ && es@[3].1
                == JsonValue::Object(payload) && str_field(es@[4], "target"@, target@)),
    {
        let mut out: Vec<(String, JsonValue)> = Vec::new();
        match entries_get(&payload, "message") {
            Some(message) => {
                let copied = message.deep_clone();
                out.push((String::from_str("message"), copied));
            },
            None => {},
        }
        out.push((String::from_str("name"), JsonValue::Str(String::from_str(name))));
        out.push((String::from_str("severity"), JsonValue::Str(String::from_str(severity))));
        out.push((String::from_str("parent"), JsonValue::Str(String::from_str(parent))));
        out.push((String::from_str("fields"), JsonValue::Object(payload)));
        out.push((String::from_str("target"), JsonValue::Str(String::from_str(target))));
        JsonValue::Object(out)
    }
}

} // verus!

//! Validating documents against JSON schemas, and merging JSON objects.
//! Schema compilation and conformance checking are the schema engine's
//! work, reached through a trusted boundary; everything around them —
//! message assembly and the object merge — is verified.

use vstd::prelude::*;
use vstd::string::StringExecFns;
use crate::json_value::{JsonValue, obj_lookup, pretty_text};

verus! {

/// Entries of `ae` whose key `be` does not also bind; their order is kept.
pub open spec fn kept_entries(
    ae: Seq<(String, JsonValue)>,
    be: Seq<(String, JsonValue)>,
) -> Seq<(String, JsonValue)>
    decreases ae.len(),
{
    if ae.len() == 0 {
        Seq::empty()
    } else if obj_lookup(be, ae[0].0@) is None {
        seq![ae[0]] + kept_entries(ae.drop_first(), be)
    } else {
        kept_entries(ae.drop_first(), be)
    }
}

/// The merge of two objects' entries: the first object's entries whose keys
/// the second does not bind, followed by all of the second's entries — so
/// on a shared key the second object's value wins.
pub open spec fn merged_entries(
    ae: Seq<(String, JsonValue)>,
    be: Seq<(String, JsonValue)>,
) -> Seq<(String, JsonValue)> {
    kept_entries(ae, be) + be
}

/// Merges two entry lists: the first list's entries whose keys the second
/// does not bind, in order, followed by all of the second's entries.
pub fn merge_entry_lists(a: Vec<(String, JsonValue)>, b: Vec<(String, JsonValue)>) -> (m: Vec<
    (String, JsonValue),
>)
    ensures
        m@ == merged_entries(a@, b@),
{
    let ghost ae0 = a@;
    let be = b;
    let mut rest = a;
    let mut merged: Vec<(String, JsonValue)> = Vec::new();
    proof {
        assert(kept_entries(ae0, be@) =~= merged@ + kept_entries(rest@, be@));
    }
    while rest.len() > 0
        invariant
            kept_entries(ae0, be@) == merged@ + kept_entries(rest@, be@),
        decreases rest@.len(),
    {
        let ghost rest_pre = rest@;
        let ghost merged_pre = merged@;
        let entry = rest.remove(0);
        proof {
            assert(rest@ =~= rest_pre.drop_first());
            assert(rest_pre[0] == entry);
        }
        let mut found = false;
        let mut j: usize = 0;
        while j < be.len()
            invariant
                j <= be@.len(),
                found <==> exists|k: int| 0 <= k < j && be@[k].0@ == entry.0@,
            decreases be@.len() - j,
        {
            if be[j].0.eq(&entry.0) {
                found = true;
            }
            j = j + 1;
        }
        proof {
            lemma_obj_lookup_found(be@, entry.0@);
        }
        if !found {
            merged.push(entry);
            proof {
                assert(merged@ =~= merged_pre.push(entry));
                assert(merged_pre + kept_entries(rest_pre, be@) =~= merged@ + kept_entries(
                    rest@,
                    be@,
                ));
            }
        } else {
            proof {
                assert(merged_pre + kept_entries(rest_pre, be@) =~= merged@ + kept_entries(
                    rest@,
                    be@,
                ));
            }
        }
    }
    proof {
        assert(kept_entries(rest@, be@) =~= Seq::<(String, JsonValue)>::empty());
        assert(merged@ =~= kept_entries(ae0, be@));
    }
    let mut tail = be;
    let ghost be0 = tail@;
    merged.append(&mut tail);
    proof {
        assert(merged@ =~= merged_entries(ae0, be0));
    }
    merged
}

/// Merge two JSON objects into a single object with combined keys. Where
/// the two share a key, the second value wins. If a value passed is not an
/// object, returns an error message naming the offending value as
/// pretty-printed JSON text.
pub fn merge_json_objects(a: JsonValue, b: JsonValue) -> (r: Result<JsonValue, String>)
    ensures
        a matches JsonValue::Object(ae) ==> (b matches JsonValue::Object(be) ==> (r matches Ok(m)
            && m matches JsonValue::Object(me) && me@ == merged_entries(ae@, be@))),
        a matches JsonValue::Object(_) && !(b matches JsonValue::Object(_)) ==> (r matches Err(msg)
            && msg@ == "value required to be object to merge. Instead got "@ + pretty_text(
            b,
            Seq::empty(),
        )),
        (!(a matches JsonValue::Object(_)) && b matches JsonValue::Object(_)) ==> (r matches Err(msg)
            && msg@ == "value required to be object to merge. Instead got "@ + pretty_text(
            a,
            Seq::empty(),
        )),
        !(a matches JsonValue::Object(_)) && !(b matches JsonValue::Object(_)) ==> (r matches Err(
            msg,
        ) && msg@
            == "Both values required to be object to merge. Neither value was an object. Instead got: "@
            + pretty_text(a, Seq::empty()) + " AND "@ + pretty_text(b, Seq::empty())),
{
    match (a, b) {
        (JsonValue::Object(ae), JsonValue::Object(be)) => {
            Ok(JsonValue::Object(merge_entry_lists(ae, be)))
        },
        (JsonValue::Object(_), other) => {
            let mut msg = String::from_str("value required to be object to merge. Instead got ");
            msg.append(other.to_pretty_json_text().as_str());
            Err(msg)
        },
        (other, JsonValue::Object(_)) => {
            let mut msg = String::from_str("value required to be object to merge. Instead got ");
            msg.append(other.to_pretty_json_text().as_str());
            Err(msg)
        },
        (first, second) => {
            let mut msg = String::from_str(
                "Both values required to be object to merge. Neither value was an object. Instead got: ",
            );
            msg.append(first.to_pretty_json_text().as_str());
            msg.append(" AND ");
            msg.append(second.to_pretty_json_text().as_str());
            Err(msg)
        },
    }
}

/// Looking a key up in a concatenation of entry lists finds the first
/// list's binding first.
proof fn lemma_obj_lookup_add(
    xs: Seq<(String, JsonValue)>,
    ys: Seq<(String, JsonValue)>,
    key: Seq<char>,
)
    ensures
        obj_lookup(xs + ys, key) == (if obj_lookup(xs, key) is Some {
            obj_lookup(xs, key)
        } else {
            obj_lookup(ys, key)
        }),
    decreases xs.len(),
{
    if xs.len() == 0 {
        assert(xs + ys =~= ys);
    } else {
        assert((xs + ys)[0] == xs[0]);
        assert((xs + ys).drop_first() =~= xs.drop_first() + ys);
        lemma_obj_lookup_add(xs.drop_first(), ys, key);
    }
}

/// The kept part binds no key that `be` binds, and keeps the `ae` binding
/// of every other key.
proof fn lemma_kept_lookup(
    ae: Seq<(String, JsonValue)>,
    be: Seq<(String, JsonValue)>,
    key: Seq<char>,
)
    ensures
        obj_lookup(kept_entries(ae, be), key) == (if obj_lookup(be, key) is Some {
            Option::<JsonValue>::None
        } else {
            obj_lookup(ae, key)
        }),
    decreases ae.len(),
{
    if ae.len() > 0 {
        lemma_kept_lookup(ae.drop_first(), be, key);
        if obj_lookup(be, ae[0].0@) is None {
            let kept = seq![ae[0]] + kept_entries(ae.drop_first(), be);
            assert(kept[0] == ae[0]);
            assert(kept.drop_first() =~= kept_entries(ae.drop_first(), be));
        }
    }
}

/// Where the two objects share a key, the merge binds the second object's
/// value; a key only one of them binds keeps that object's value.
pub proof fn lemma_merge_second_wins(
    ae: Seq<(String, JsonValue)>,
    be: Seq<(String, JsonValue)>,
    key: Seq<char>,
)
    ensures
        obj_lookup(merged_entries(ae, be), key) == (if obj_lookup(be, key) is Some {
            obj_lookup(be, key)
        } else {
            obj_lookup(ae, key)
        }),
{
    lemma_obj_lookup_add(kept_entries(ae, be), be, key);
    lemma_kept_lookup(ae, be, key);
}

/// Declares `serde_json::Value` so that parsed JSON documents can be
/// carried through signatures; the value itself stays opaque here.
#[verifier::external_type_specification]
#[verifier::external_body]
pub struct ExValue(serde_json::Value);

/// Carries the schema engine's compiled validator; its contents stay
/// opaque to the verifier, which cannot express the engine's document
/// flavour bound.
#[verifier::external_body]
pub struct SchemaValidator {
    inner: jsonschema::Validator,
}

/// Relies on `jsonschema::validator_for`: compiles a schema, failing when
/// it cannot be compiled — an invalid schema, or a reference that cannot
/// be resolved; on failure the error's display text is returned.
#[verifier::external_body]
fn build_validator(schema: &serde_json::Value) -> Result<SchemaValidator, String> {
    match jsonschema::validator_for(schema) {
        Ok(inner) => Ok(SchemaValidator { inner }),
        Err(e) => Err(e.to_string()),
    }
}

/// Relies on `jsonschema::Validator::validate`: whether the document
/// conforms to the compiled schema.
#[verifier::external_body]
fn validator_accepts(validator: &SchemaValidator, inputs: &serde_json::Value) -> bool {
    validator.inner.validate(inputs).is_ok()
}

/// Relies on `jsonschema::Validator::iter_errors` and
/// `serde_json::to_string_pretty`: for each validation error in order, its
/// display text, schema path, instance path, and the offending document
/// pretty-printed.
#[verifier::external_body]
fn validation_error_parts(validator: &SchemaValidator, inputs: &serde_json::Value) -> Vec<
    (String, String, String, String),
> {
    validator.inner.iter_errors(inputs).map(
        |e| (
            e.to_string(),
            e.schema_path().to_string(),
            e.instance_path().to_string(),
            serde_json::to_string_pretty(e.instance().as_ref()).unwrap_or_default(),
        ),
    ).collect()
}

/// The text reported for one validation error, from its display text,
/// schema path, instance path and pretty-printed document.
pub open spec fn error_line_text(part: (String, String, String, String)) -> Seq<char> {
    "Validation Error ["@ + part.0@ + "]. Schema Path ["@ + part.1@ + "]. Instance Path ["@
        + part.2@ + "]. Instance: "@ + part.3@
}

/// The error lines from position `i` on, joined with `", "`.
pub open spec fn joined_lines_text(parts: Seq<(String, String, String, String)>, i: int) -> Seq<
    char,
>
    decreases parts.len() - i,
{
    if i < 0 || i >= parts.len() {
        Seq::empty()
    } else if i == parts.len() - 1 {
        error_line_text(parts[i])
    } else {
        error_line_text(parts[i]) + ", "@ + joined_lines_text(parts, i + 1)
    }
}

/// The whole message reported when a document fails validation.
pub open spec fn validation_failure_text(parts: Seq<(String, String, String, String)>) -> Seq<
    char,
> {
    "Json failed validation, error(s): "@ + if parts.len() == 0 {
        "Missing Error"@
    } else {
        joined_lines_text(parts, 0)
    }
}

/// The message reported when the schema itself does not compile, around
/// the engine's own error text.
pub open spec fn invalid_schema_text(engine_error: Seq<char>) -> Seq<char> {
    "Invalid json schema, error: "@ + engine_error
}

/// Appends the error lines from position `i` on, joined with `", "`.
fn append_joined_lines(out: &mut String, parts: &Vec<(String, String, String, String)>, i: usize)
    requires
        i <= parts@.len(),
    ensures
        final(out)@ == old(out)@ + joined_lines_text(parts@, i as int),
    decreases parts@.len() - i,
{
    if i >= parts.len() {
        proof {
            assert(out@ + Seq::<char>::empty() =~= out@);
        }
        return ;
    }
    out.append("Validation Error [");
    out.append(parts[i].0.as_str());
    out.append("]. Schema Path [");
    out.append(parts[i].1.as_str());
    out.append("]. Instance Path [");
    out.append(parts[i].2.as_str());
    out.append("]. Instance: ");
    out.append(parts[i].3.as_str());
    proof {
        assert(out@ =~= old(out)@ + error_line_text(parts@[i as int]));
    }
    if i + 1 < parts.len() {
        out.append(", ");
        append_joined_lines(out, parts, i + 1);
        proof {
            assert(out@ =~= old(out)@ + joined_lines_text(parts@, i as int));
        }
    }
}

/// Builds the message reported when a document fails validation, from the
/// collected error parts.
pub fn build_validation_message(parts: &Vec<(String, String, String, String)>) -> (msg: String)
    ensures
        msg@ == validation_failure_text(parts@),
{
    let mut msg = String::from_str("Json failed validation, error(s): ");
    if parts.len() == 0 {
        msg.append("Missing Error");
    } else {
        append_joined_lines(&mut msg, parts, 0);
    }
    msg
}

/// Settles one validation run from what the schema engine decided:
/// whether the schema compiled (with the engine's error text when it did
/// not), whether the engine accepted the document, and the error parts it
/// collected. Success is owed exactly when the schema compiled and the
/// document was accepted; a schema that did not compile yields the
/// invalid-schema message around the engine's text, and a rejected
/// document yields the validation-failure message over the parts.
pub fn validation_outcome(
    compiled: Result<(), String>,
    accepted: bool,
    parts: Vec<(String, String, String, String)>,
) -> (r: Result<(), String>)
    ensures
        r is Ok <==> compiled is Ok && accepted,
        compiled matches Err(engine_error) ==> (r matches Err(msg) && msg@ == invalid_schema_text(
            engine_error@,
        )),
        compiled is Ok && !accepted ==> (r matches Err(msg) && msg@ == validation_failure_text(
            parts@,
        )),
{
    match compiled {
        Err(engine_error) => {
            let mut msg = String::from_str("Invalid json schema, error: ");
            msg.append(engine_error.as_str());
            Err(msg)
        },
        Ok(()) => {
            if accepted {
                Ok(())
            } else {
                Err(build_validation_message(&parts))
            }
        },
    }
}

/// Validates `inputs` against `schema`. The schema engine decides
/// compilation and conformance; whatever it decides, the run is settled by
/// `validation_outcome`, whose contract fixes the result for every
/// decision: an empty result exactly when the engine compiled the schema
/// and accepted the document, and otherwise one of the two verified
/// failure messages.
pub fn validate_json(schema: &serde_json::Value, inputs: &serde_json::Value) -> (r: Result<
    (),
    String,
>)
    ensures
        r matches Err(msg) ==> (exists|engine_error: Seq<char>|
            msg@ == invalid_schema_text(engine_error)) || (exists|
            parts: Seq<(String, String, String, String)>,
        |
            msg@ == validation_failure_text(parts)),
{
    match build_validator(schema) {
        Err(engine_error) => {
            let ghost engine_error_view = engine_error@;
            let r = validation_outcome(Err(engine_error), false, Vec::new());
            proof {
                assert(r matches Err(msg) && msg@ == invalid_schema_text(engine_error_view));
            }
            r
        },
        Ok(validator) => {
            let accepted = validator_accepts(&validator, inputs);
            let parts = if accepted {
                Vec::new()
            } else {
                validation_error_parts(&validator, inputs)
            };
            let ghost parts_view = parts@;
            let r = validation_outcome(Ok(()), accepted, parts);
            proof {
                if !accepted {
                    assert(r matches Err(msg) && msg@ == validation_failure_text(parts_view));
                }
            }
            r
        },
    }
}

/// A key is bound in an entry list exactly when some entry carries it.
proof fn lemma_obj_lookup_found(entries: Seq<(String, JsonValue)>, key: Seq<char>)
    ensures
        (obj_lookup(entries, key) is Some) <==> exists|k: int|
            0 <= k < entries.len() && entries[k].0@ == key,
    decreases entries.len(),
{
    if entries.len() > 0 {
        lemma_obj_lookup_found(entries.drop_first(), key);
        if obj_lookup(entries, key) is Some {
            if entries[0].0@ != key {
                let k = choose|k: int|
                    0 <= k < entries.drop_first().len() && entries.drop_first()[k].0@ == key;
                assert(entries[k + 1].0@ == key);
            }
        }
        if exists|k: int| 0 <= k < entries.len() && entries[k].0@ == key {
            let k = choose|k: int| 0 <= k < entries.len() && entries[k].0@ == key;
            if entries[0].0@ != key {
                assert(entries.drop_first()[k - 1].0@ == key);
            }
        }
    }
}

} // verus!

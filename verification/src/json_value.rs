//! A model of JSON documents as plain data: null, booleans, integers,
//! strings, arrays and objects, with objects held as key/value entry lists
//! looked up by first match. The schema helpers and the log-record builder
//! work on this type, and serializers render it as compact or
//! pretty-printed JSON text.

use vstd::prelude::*;
use vstd::string::StringExecFns;

verus! {

broadcast use vstd::std_specs::vec::group_vec_axioms, vstd::seq::group_seq_axioms;

/// A JSON document. Numbers cover the integer range the surrounding
/// library exchanges; object entries keep their insertion order.
#[derive(Debug, PartialEq, Eq)]
pub enum JsonValue {
    Null,
    Bool(bool),
    Int(i64),
    Str(String),
    Array(Vec<JsonValue>),
    Object(Vec<(String, JsonValue)>),
}

/// The value under `key` in an entry list: the first entry with that key,
/// if any.
pub open spec fn obj_lookup(entries: Seq<(String, JsonValue)>, key: Seq<char>) -> Option<JsonValue>
    decreases entries.len(),
{
    if entries.len() == 0 {
        None
    } else if entries[0].0@ == key {
        Some(entries[0].1)
    } else {
        obj_lookup(entries.drop_first(), key)
    }
}

/// The value under `key` in `v`: a lookup in an object, nothing for any
/// other kind of value.
pub open spec fn json_get(v: JsonValue, key: Seq<char>) -> Option<JsonValue> {
    match v {
        JsonValue::Object(entries) => obj_lookup(entries@, key),
        _ => None,
    }
}

/// Compares a string's text with a literal's.
pub(crate) fn string_eq_str(s: &String, other: &str) -> (r: bool)
    ensures
        r == (s@ == other@),
{
    let other_string = String::from_str(other);
    s.eq(&other_string)
}

impl JsonValue {
    /// Whether this value is an object.
    pub fn is_object(&self) -> (r: bool)
        ensures
            r == (*self matches JsonValue::Object(_)),
    {
        match self {
            JsonValue::Object(_) => true,
            _ => false,
        }
    }

    /// Looks `key` up in this value, following `json_get`: the first entry
    /// with that key when this is an object, nothing otherwise.
    pub fn get<'a>(&'a self, key: &str) -> (r: Option<&'a JsonValue>)
        ensures
            match r {
                Some(found) => json_get(*self, key@) == Some(*found),
                None => json_get(*self, key@) is None,
            },
    {
        match self {
            JsonValue::Object(entries) => entries_get(entries, key),
            _ => None,
        }
    }

    /// Renders this value as compact JSON text, following `json_text`.
    pub fn to_json_text(&self) -> (out: String)
        ensures
            out@ == json_text(*self),
    {
        let mut out = String::new();
        append_json_text(&mut out, self);
        proof {
            assert(Seq::<char>::empty() + json_text(*self) =~= json_text(*self));
        }
        out
    }

    /// Renders this value as pretty-printed JSON text with two-space
    /// indentation, following `pretty_text` at the outermost level.
    pub fn to_pretty_json_text(&self) -> (out: String)
        ensures
            out@ == pretty_text(*self, Seq::empty()),
    {
        let mut out = String::new();
        let indent = String::new();
        append_pretty_text(&mut out, self, &indent);
        proof {
            assert(Seq::<char>::empty() + pretty_text(*self, Seq::<char>::empty()) =~= pretty_text(
                *self,
                Seq::<char>::empty(),
            ));
        }
        out
    }

    /// The text of a string value, and nothing for any other kind.
    pub fn as_str<'a>(&'a self) -> (r: Option<&'a String>)
        ensures
            match r {
                Some(s) => *self matches JsonValue::Str(inner) && inner@ == s@,
                None => !(*self matches JsonValue::Str(_)),
            },
    {
        match self {
            JsonValue::Str(s) => Some(s),
            _ => None,
        }
    }
}

/// The character of one decimal digit.
pub open spec fn digit_char(d: int) -> char {
    if d == 0 {
        '0'
    } else if d == 1 {
        '1'
    } else if d == 2 {
        '2'
    } else if d == 3 {
        '3'
    } else if d == 4 {
        '4'
    } else if d == 5 {
        '5'
    } else if d == 6 {
        '6'
    } else if d == 7 {
        '7'
    } else if d == 8 {
        '8'
    } else {
        '9'
    }
}

/// The decimal text of a natural number, most significant digit first.
pub open spec fn nat_text(n: nat) -> Seq<char>
    decreases n,
{
    if n < 10 {
        seq![digit_char(n as int)]
    } else {
        nat_text(n / 10) + seq![digit_char((n % 10) as int)]
    }
}

/// The decimal text of an integer: a minus sign before the magnitude for a
/// negative number.
pub open spec fn int_text(n: int) -> Seq<char> {
    if n < 0 {
        seq!['-'] + nat_text((-n) as nat)
    } else {
        nat_text(n as nat)
    }
}

/// The character of one hexadecimal digit, lower case.
pub open spec fn hex_digit_char(d: int) -> char {
    if d == 10 {
        'a'
    } else if d == 11 {
        'b'
    } else if d == 12 {
        'c'
    } else if d == 13 {
        'd'
    } else if d == 14 {
        'e'
    } else if d == 15 {
        'f'
    } else {
        digit_char(d)
    }
}

/// How one character appears inside a JSON string literal: quote and
/// backslash are escaped, the control characters backspace, form feed,
/// newline, carriage return and tab by their short escapes, every other
/// control character as `\u00` and its code in two hex digits, and every
/// remaining character stands for itself.
pub open spec fn escaped_char(c: char) -> Seq<char> {
    if c == '"' {
        seq!['\\', '"']
    } else if c == '\\' {
        seq!['\\', '\\']
    } else if c == '\u{8}' {
        seq!['\\', 'b']
    } else if c == '\u{c}' {
        seq!['\\', 'f']
    } else if c == '\n' {
        seq!['\\', 'n']
    } else if c == '\r' {
        seq!['\\', 'r']
    } else if c == '\t' {
        seq!['\\', 't']
    } else if (c as u32) < 32 {
        seq!['\\', 'u', '0', '0', hex_digit_char((c as u32 / 16) as int), hex_digit_char(
            (c as u32 % 16) as int,
        )]
    } else {
        seq![c]
    }
}

/// The text of a string's characters inside a JSON string literal.
pub open spec fn escaped_text(s: Seq<char>) -> Seq<char>
    decreases s.len(),
{
    if s.len() == 0 {
        Seq::empty()
    } else {
        escaped_char(s[0]) + escaped_text(s.drop_first())
    }
}

/// The text of a JSON string literal: the escaped characters in quotes.
pub open spec fn string_text(s: Seq<char>) -> Seq<char> {
    seq!['"'] + escaped_text(s) + seq!['"']
}

/// The compact JSON text of a value.
pub open spec fn json_text(v: JsonValue) -> Seq<char>
    decreases v, 1int, 0int,
{
    match v {
        JsonValue::Null => "null"@,
        JsonValue::Bool(b) => if b {
            "true"@
        } else {
            "false"@
        },
        JsonValue::Int(n) => int_text(n as int),
        JsonValue::Str(s) => string_text(s@),
        JsonValue::Array(items) => seq!['['] + items_text(items, 0) + seq![']'],
        JsonValue::Object(entries) => seq!['{'] + entries_text(entries, 0) + seq!['}'],
    }
}

/// The comma-separated text of an array's items from position `i` on.
pub open spec fn items_text(items: Vec<JsonValue>, i: int) -> Seq<char>
    decreases items, 0int, items.len() - i,
{
    if i < 0 || i >= items.len() {
        Seq::empty()
    } else if i == items.len() - 1 {
        json_text(items[i])
    } else {
        json_text(items[i]) + seq![','] + items_text(items, i + 1)
    }
}

/// The comma-separated text of an object's `"key":value` fields from
/// position `i` on.
pub open spec fn entries_text(entries: Vec<(String, JsonValue)>, i: int) -> Seq<char>
    decreases entries, 0int, entries.len() - i,
{
    if i < 0 || i >= entries.len() {
        Seq::empty()
    } else if i == entries.len() - 1 {
        string_text(entries[i].0@) + seq![':'] + json_text(entries[i].1)
    } else {
        string_text(entries[i].0@) + seq![':'] + json_text(entries[i].1) + seq![','] + entries_text(
            entries,
            i + 1,
        )
    }
}

/// The pretty JSON text of a value standing at indentation `indent`:
/// scalars as in the compact text; a non-empty array or object spreads
/// each element over its own line, indented two spaces deeper, with the
/// closing bracket back at `indent`.
pub open spec fn pretty_text(v: JsonValue, indent: Seq<char>) -> Seq<char>
    decreases v, 1int, 0int,
{
    match v {
        JsonValue::Null => "null"@,
        JsonValue::Bool(b) => if b {
            "true"@
        } else {
            "false"@
        },
        JsonValue::Int(n) => int_text(n as int),
        JsonValue::Str(s) => string_text(s@),
        JsonValue::Array(items) => if items.len() == 0 {
            "[]"@
        } else {
            seq!['['] + pretty_items_text(items, 0, indent + "  "@) + seq!['\n'] + indent
                + seq![']']
        },
        JsonValue::Object(entries) => if entries.len() == 0 {
            "{}"@
        } else {
            seq!['{'] + pretty_entries_text(entries, 0, indent + "  "@) + seq!['\n'] + indent
                + seq!['}']
        },
    }
}

/// The pretty text of an array's items from position `i` on: each on its
/// own line at indentation `inner`, separated by commas.
pub open spec fn pretty_items_text(items: Vec<JsonValue>, i: int, inner: Seq<char>) -> Seq<char>
    decreases items, 0int, items.len() - i,
{
    if i < 0 || i >= items.len() {
        Seq::empty()
    } else {
        let head = seq!['\n'] + inner + pretty_text(items[i], inner);
        if i == items.len() - 1 {
            head
        } else {
            head + seq![','] + pretty_items_text(items, i + 1, inner)
        }
    }
}

/// The pretty text of an object's `"key": value` fields from position `i`
/// on: each on its own line at indentation `inner`, separated by commas.
pub open spec fn pretty_entries_text(
    entries: Vec<(String, JsonValue)>,
    i: int,
    inner: Seq<char>,
) -> Seq<char>
    decreases entries, 0int, entries.len() - i,
{
    if i < 0 || i >= entries.len() {
        Seq::empty()
    } else {
        let head = seq!['\n'] + inner + string_text(entries[i].0@) + seq![':', ' '] + pretty_text(
            entries[i].1,
            inner,
        );
        if i == entries.len() - 1 {
            head
        } else {
            head + seq![','] + pretty_entries_text(entries, i + 1, inner)
        }
    }
}

/// Appends the pretty JSON text of `v` standing at indentation `indent`.
fn append_pretty_text(out: &mut String, v: &JsonValue, indent: &String)
    ensures
        final(out)@ == old(out)@ + pretty_text(*v, indent@),
    decreases *v, 1int, 0int,
{
    match v {
        JsonValue::Null => {
            out.append("null");
        },
        JsonValue::Bool(b) => {
            if *b {
                out.append("true");
            } else {
                out.append("false");
            }
        },
        JsonValue::Int(n) => {
            append_int_text(out, *n);
        },
        JsonValue::Str(s) => {
            push_char(out, '"');
            append_escaped(out, s.as_str());
            push_char(out, '"');
            proof {
                assert(out@ =~= old(out)@ + string_text(s@));
            }
        },
        JsonValue::Array(items) => {
            if items.len() == 0 {
                out.append("[]");
            } else {
                push_char(out, '[');
                let mut inner = indent.clone();
                inner.append("  ");
                proof {
                    assert(inner@ =~= indent@ + "  "@);
                }
                append_pretty_items(out, items, 0, &inner);
                push_char(out, '\n');
                out.append(indent.as_str());
                push_char(out, ']');
                proof {
                    assert(out@ =~= old(out)@ + pretty_text(*v, indent@));
                }
            }
        },
        JsonValue::Object(entries) => {
            if entries.len() == 0 {
                out.append("{}");
            } else {
                push_char(out, '{');
                let mut inner = indent.clone();
                inner.append("  ");
                proof {
                    assert(inner@ =~= indent@ + "  "@);
                }
                append_pretty_entries(out, entries, 0, &inner);
                push_char(out, '\n');
                out.append(indent.as_str());
                push_char(out, '}');
                proof {
                    assert(out@ =~= old(out)@ + pretty_text(*v, indent@));
                }
            }
        },
    }
}

/// Appends the pretty text of an array's items from position `i` on.
fn append_pretty_items(out: &mut String, items: &Vec<JsonValue>, i: usize, inner: &String)
    requires
        i <= items@.len(),
    ensures
        final(out)@ == old(out)@ + pretty_items_text(*items, i as int, inner@),
    decreases *items, 0int, items@.len() - i,
{
    if i >= items.len() {
        proof {
            assert(out@ + Seq::<char>::empty() =~= out@);
        }
        return ;
    }
    push_char(out, '\n');
    out.append(inner.as_str());
    append_pretty_text(out, &items[i], inner);
    proof {
        assert(out@ =~= old(out)@ + (seq!['\n'] + inner@ + pretty_text(
            items@[i as int],
            inner@,
        )));
    }
    if i + 1 < items.len() {
        push_char(out, ',');
        append_pretty_items(out, items, i + 1, inner);
        proof {
            assert(out@ =~= old(out)@ + pretty_items_text(*items, i as int, inner@));
        }
    }
}

/// Appends the pretty text of an object's fields from position `i` on.
fn append_pretty_entries(
    out: &mut String,
    entries: &Vec<(String, JsonValue)>,
    i: usize,
    inner: &String,
)
    requires
        i <= entries@.len(),
    ensures
        final(out)@ == old(out)@ + pretty_entries_text(*entries, i as int, inner@),
    decreases *entries, 0int, entries@.len() - i,
{
    if i >= entries.len() {
        proof {
            assert(out@ + Seq::<char>::empty() =~= out@);
        }
        return ;
    }
    push_char(out, '\n');
    out.append(inner.as_str());
    push_char(out, '"');
    append_escaped(out, entries[i].0.as_str());
    push_char(out, '"');
    push_char(out, ':');
    push_char(out, ' ');
    proof {
        assert(decreases_to!(*entries => (*entries)[i as int]));
        assert(decreases_to!((*entries)[i as int] => (*entries)[i as int].1));
    }
    append_pretty_text(out, &entries[i].1, inner);
    proof {
        assert(out@ =~= old(out)@ + (seq!['\n'] + inner@ + string_text(entries@[i as int].0@)
            + seq![':', ' '] + pretty_text(entries@[i as int].1, inner@)));
    }
    if i + 1 < entries.len() {
        push_char(out, ',');
        append_pretty_entries(out, entries, i + 1, inner);
        proof {
            assert(out@ =~= old(out)@ + pretty_entries_text(*entries, i as int, inner@));
        }
    }
}

/// Looks `key` up in an entry list, following `obj_lookup`: the first
/// entry carrying that key, if any.
pub fn entries_get<'a>(entries: &'a Vec<(String, JsonValue)>, key: &str) -> (r: Option<
    &'a JsonValue,
>)
    ensures
        match r {
            Some(found) => obj_lookup(entries@, key@) == Some(*found),
            None => obj_lookup(entries@, key@) is None,
        },
{
    let mut i: usize = 0;
    proof {
        assert(entries@.skip(0) =~= entries@);
    }
    while i < entries.len()
        invariant
            0 <= i <= entries@.len(),
            forall|j: int| 0 <= j < i ==> entries@[j].0@ != key@,
            obj_lookup(entries@, key@) == obj_lookup(entries@.skip(i as int), key@),
        decreases entries@.len() - i,
    {
        proof {
            assert(entries@.skip(i as int)[0] == entries@[i as int]);
            assert(entries@.skip(i as int).drop_first() =~= entries@.skip(i as int + 1));
        }
        if string_eq_str(&entries[i].0, key) {
            proof {
                assert(obj_lookup(entries@.skip(i as int), key@) == Some(entries@[i as int].1));
            }
            return Some(&entries[i].1);
        }
        i = i + 1;
    }
    proof {
        assert(entries@.skip(i as int).len() == 0);
    }
    None
}

/// Deep equality of two JSON values: same shape, with strings compared by
/// their text.
pub open spec fn json_eq(a: JsonValue, b: JsonValue) -> bool
    decreases a, 1int, 0int,
{
    match (a, b) {
        (JsonValue::Null, JsonValue::Null) => true,
        (JsonValue::Bool(x), JsonValue::Bool(y)) => x == y,
        (JsonValue::Int(x), JsonValue::Int(y)) => x == y,
        (JsonValue::Str(x), JsonValue::Str(y)) => x@ == y@,
        (JsonValue::Array(xs), JsonValue::Array(ys)) => items_eq(xs, ys, 0),
        (JsonValue::Object(xs), JsonValue::Object(ys)) => entries_eq(xs, ys, 0),
        _ => false,
    }
}

/// Pointwise deep equality of two arrays' items from position `i` on.
pub open spec fn items_eq(xs: Vec<JsonValue>, ys: Vec<JsonValue>, i: int) -> bool
    decreases xs, 0int, xs.len() - i,
{
    if xs.len() != ys.len() {
        false
    } else if i < 0 || i >= xs.len() {
        true
    } else {
        json_eq(xs[i], ys[i]) && items_eq(xs, ys, i + 1)
    }
}

/// Pointwise deep equality of two objects' entries from position `i` on:
/// keys compared by text, values deeply.
pub open spec fn entries_eq(
    xs: Vec<(String, JsonValue)>,
    ys: Vec<(String, JsonValue)>,
    i: int,
) -> bool
    decreases xs, 0int, xs.len() - i,
{
    if xs.len() != ys.len() {
        false
    } else if i < 0 || i >= xs.len() {
        true
    } else {
        xs[i].0@ == ys[i].0@ && json_eq(xs[i].1, ys[i].1) && entries_eq(xs, ys, i + 1)
    }
}

impl JsonValue {
    /// Copies this value in depth; the copy is deeply equal to the
    /// original.
    pub fn deep_clone(&self) -> (r: JsonValue)
        ensures
            json_eq(r, *self),
        decreases *self, 1int, 0int,
    {
        match self {
            JsonValue::Null => JsonValue::Null,
            JsonValue::Bool(b) => JsonValue::Bool(*b),
            JsonValue::Int(n) => JsonValue::Int(*n),
            JsonValue::Str(s) => JsonValue::Str(s.clone()),
            JsonValue::Array(items) => JsonValue::Array(clone_items(items)),
            JsonValue::Object(entries) => JsonValue::Object(clone_entries(entries)),
        }
    }
}

/// Copies an array's items in depth.
fn clone_items(items: &Vec<JsonValue>) -> (out: Vec<JsonValue>)
    ensures
        items_eq(out, *items, 0),
    decreases *items, 0int, 0int,
{
    let mut out: Vec<JsonValue> = Vec::new();
    let mut i: usize = 0;
    while i < items.len()
        invariant
            i <= items@.len(),
            out@.len() == i,
            forall|j: int| 0 <= j < i ==> json_eq(#[trigger] out@[j], items@[j]),
        decreases items@.len() - i,
    {
        proof {
            assert(decreases_to!(*items => (*items)[i as int]));
        }
        out.push(items[i].deep_clone());
        i = i + 1;
    }
    proof {
        lemma_items_eq_pointwise(out, *items, 0);
    }
    out
}

/// Copies an object's entries in depth.
fn clone_entries(entries: &Vec<(String, JsonValue)>) -> (out: Vec<(String, JsonValue)>)
    ensures
        entries_eq(out, *entries, 0),
    decreases *entries, 0int, 0int,
{
    let mut out: Vec<(String, JsonValue)> = Vec::new();
    let mut i: usize = 0;
    while i < entries.len()
        invariant
            i <= entries@.len(),
            out@.len() == i,
            forall|j: int|
                0 <= j < i ==> (#[trigger] out@[j]).0@ == entries@[j].0@ && json_eq(
                    out@[j].1,
                    entries@[j].1,
                ),
        decreases entries@.len() - i,
    {
        proof {
            assert(decreases_to!(*entries => (*entries)[i as int]));
            assert(decreases_to!((*entries)[i as int] => (*entries)[i as int].1));
        }
        let key = entries[i].0.clone();
        let value = entries[i].1.deep_clone();
        out.push((key, value));
        i = i + 1;
    }
    proof {
        lemma_entries_eq_pointwise(out, *entries, 0);
    }
    out
}

/// Arrays whose items agree pointwise from `i` on are equal from `i` on.
proof fn lemma_items_eq_pointwise(xs: Vec<JsonValue>, ys: Vec<JsonValue>, i: int)
    requires
        xs@.len() == ys@.len(),
        0 <= i <= xs@.len(),
        forall|j: int| i <= j < xs@.len() ==> json_eq(#[trigger] xs@[j], ys@[j]),
    ensures
        items_eq(xs, ys, i),
    decreases xs@.len() - i,
{
    if i < xs@.len() {
        lemma_items_eq_pointwise(xs, ys, i + 1);
    }
}

/// Objects whose entries agree pointwise from `i` on are equal from `i`
/// on.
proof fn lemma_entries_eq_pointwise(
    xs: Vec<(String, JsonValue)>,
    ys: Vec<(String, JsonValue)>,
    i: int,
)
    requires
        xs@.len() == ys@.len(),
        0 <= i <= xs@.len(),
        forall|j: int|
            i <= j < xs@.len() ==> (#[trigger] xs@[j]).0@ == ys@[j].0@ && json_eq(
                xs@[j].1,
                ys@[j].1,
            ),
    ensures
        entries_eq(xs, ys, i),
    decreases xs@.len() - i,
{
    if i < xs@.len() {
        lemma_entries_eq_pointwise(xs, ys, i + 1);
    }
}

/// Relies on `String::push`: appends one character to the string.
#[verifier::external_body]
pub(crate) fn push_char(out: &mut String, c: char)
    ensures
        final(out)@ == old(out)@ + seq![c],
{
    out.push(c);
}

/// The digit character of `d`.
fn digit_char_of(d: u64) -> (c: char)
    requires
        d < 10,
    ensures
        c == digit_char(d as int),
{
    if d == 0 {
        '0'
    } else if d == 1 {
        '1'
    } else if d == 2 {
        '2'
    } else if d == 3 {
        '3'
    } else if d == 4 {
        '4'
    } else if d == 5 {
        '5'
    } else if d == 6 {
        '6'
    } else if d == 7 {
        '7'
    } else if d == 8 {
        '8'
    } else {
        '9'
    }
}

/// The hexadecimal digit character of `d`, lower case.
fn hex_digit_of(d: u64) -> (c: char)
    requires
        d < 16,
    ensures
        c == hex_digit_char(d as int),
{
    if d == 10 {
        'a'
    } else if d == 11 {
        'b'
    } else if d == 12 {
        'c'
    } else if d == 13 {
        'd'
    } else if d == 14 {
        'e'
    } else if d == 15 {
        'f'
    } else {
        digit_char_of(d)
    }
}

/// Reversing after a push puts the pushed element in front.
proof fn lemma_reverse_push<A>(s: Seq<A>, x: A)
    ensures
        s.push(x).reverse() =~= seq![x] + s.reverse(),
{
}

/// Appends the decimal text of `n`.
fn append_nat_text(out: &mut String, n: u64)
    ensures
        final(out)@ == old(out)@ + nat_text(n as nat),
{
    let mut digits: Vec<char> = Vec::new();
    let mut m: u64 = n;
    while m > 9
        invariant
            nat_text(n as nat) =~= nat_text(m as nat) + digits@.reverse(),
        decreases m,
    {
        let d: u64 = m % 10;
        let c = digit_char_of(d);
        let ghost dpre = digits@;
        digits.push(c);
        m = m / 10;
        proof {
            lemma_reverse_push(dpre, c);
            assert(nat_text(m as nat) + digits@.reverse() =~= (nat_text(m as nat) + seq![c])
                + dpre.reverse());
        }
    }
    let c = digit_char_of(m);
    let ghost dpre = digits@;
    digits.push(c);
    proof {
        lemma_reverse_push(dpre, c);
        assert(nat_text(n as nat) =~= digits@.reverse());
    }
    let mut j: usize = digits.len();
    proof {
        assert(digits@.subrange(j as int, digits@.len() as int).reverse() =~= Seq::<
            char,
        >::empty());
        assert(out@ + Seq::<char>::empty() =~= out@);
    }
    while j > 0
        invariant
            j <= digits@.len(),
            out@ == old(out)@ + digits@.subrange(j as int, digits@.len() as int).reverse(),
        decreases j,
    {
        j = j - 1;
        push_char(out, digits[j]);
        proof {
            assert(digits@.subrange(j as int, digits@.len() as int).reverse() =~= digits@.subrange(
                j as int + 1,
                digits@.len() as int,
            ).reverse() + seq![digits@[j as int]]);
        }
    }
    proof {
        assert(digits@.subrange(0, digits@.len() as int) =~= digits@);
        assert(out@ =~= old(out)@ + nat_text(n as nat));
    }
}

/// Appends the decimal text of `n`, sign included.
fn append_int_text(out: &mut String, n: i64)
    ensures
        final(out)@ == old(out)@ + int_text(n as int),
{
    if n >= 0 {
        append_nat_text(out, n as u64);
    } else {
        push_char(out, '-');
        let m: u64 = if n == i64::MIN {
            9223372036854775808u64
        } else {
            (-n) as u64
        };
        append_nat_text(out, m);
        proof {
            assert(out@ =~= old(out)@ + (seq!['-'] + nat_text(m as nat)));
        }
    }
}

/// Appends the characters of `s` in their escaped form.
fn append_escaped(out: &mut String, s: &str)
    ensures
        final(out)@ == old(out)@ + escaped_text(s@),
{
    let n = s.unicode_len();
    let mut i: usize = 0;
    proof {
        assert(s@.take(0) =~= Seq::<char>::empty());
        assert(out@ + Seq::<char>::empty() =~= out@);
    }
    while i < n
        invariant
            i <= n,
            n == s@.len(),
            out@ == old(out)@ + escaped_text(s@.take(i as int)),
        decreases n - i,
    {
        let c = s.get_char(i);
        if c == '"' {
            out.append("\\\"");
            proof {
                reveal_strlit("\\\"");
                assert("\\\""@ =~= escaped_char(c));
            }
        } else if c == '\\' {
            out.append("\\\\");
            proof {
                reveal_strlit("\\\\");
                assert("\\\\"@ =~= escaped_char(c));
            }
        } else if c == '\u{8}' {
            out.append("\\b");
            proof {
                reveal_strlit("\\b");
                assert("\\b"@ =~= escaped_char(c));
            }
        } else if c == '\u{c}' {
            out.append("\\f");
            proof {
                reveal_strlit("\\f");
                assert("\\f"@ =~= escaped_char(c));
            }
        } else if c == '\n' {
            out.append("\\n");
            proof {
                reveal_strlit("\\n");
                assert("\\n"@ =~= escaped_char(c));
            }
        } else if c == '\r' {
            out.append("\\r");
            proof {
                reveal_strlit("\\r");
                assert("\\r"@ =~= escaped_char(c));
            }
        } else if c == '\t' {
            out.append("\\t");
            proof {
                reveal_strlit("\\t");
                assert("\\t"@ =~= escaped_char(c));
            }
        } else if (c as u32) < 32 {
            let code: u32 = c as u32;
            out.append("\\u00");
            push_char(out, hex_digit_of((code / 16) as u64));
            push_char(out, hex_digit_of((code % 16) as u64));
            proof {
                reveal_strlit("\\u00");
                assert(out@ =~= old(out)@ + escaped_text(s@.take(i as int)) + escaped_char(c));
            }
        } else {
            push_char(out, c);
        }
        proof {
            lemma_escaped_text_snoc(s@.take(i as int + 1));
            assert(s@.take(i as int + 1).drop_last() =~= s@.take(i as int));
            assert(s@.take(i as int + 1).last() == s@[i as int]);
            assert(out@ =~= old(out)@ + escaped_text(s@.take(i as int + 1)));
        }
        i = i + 1;
    }
    proof {
        assert(s@.take(n as int) =~= s@);
    }
}

/// Escaping a string character by character appends the last character's
/// escape to the rest's.
proof fn lemma_escaped_text_snoc(s: Seq<char>)
    requires
        s.len() > 0,
    ensures
        escaped_text(s) == escaped_text(s.drop_last()) + escaped_char(s.last()),
    decreases s.len(),
{
    if s.len() == 1 {
        assert(s.drop_first() =~= Seq::<char>::empty());
        assert(s.drop_last() =~= Seq::<char>::empty());
        assert(escaped_text(s) =~= escaped_text(s.drop_last()) + escaped_char(s.last()));
    } else {
        lemma_escaped_text_snoc(s.drop_first());
        assert(s.drop_first().drop_last() =~= s.drop_last().drop_first());
        assert(s.drop_first().last() == s.last());
        assert(s.drop_last()[0] == s[0]);
        assert(s.drop_last().len() > 0);
        assert(escaped_text(s) =~= escaped_text(s.drop_last()) + escaped_char(s.last()));
    }
}

/// Appends the JSON text of `v`.
fn append_json_text(out: &mut String, v: &JsonValue)
    ensures
        final(out)@ == old(out)@ + json_text(*v),
    decreases *v, 1int, 0int,
{
    match v {
        JsonValue::Null => {
            out.append("null");
        },
        JsonValue::Bool(b) => {
            if *b {
                out.append("true");
            } else {
                out.append("false");
            }
        },
        JsonValue::Int(n) => {
            append_int_text(out, *n);
        },
        JsonValue::Str(s) => {
            push_char(out, '"');
            append_escaped(out, s.as_str());
            push_char(out, '"');
            proof {
                assert(out@ =~= old(out)@ + string_text(s@));
            }
        },
        JsonValue::Array(items) => {
            push_char(out, '[');
            append_items_text(out, items, 0);
            push_char(out, ']');
            proof {
                assert(out@ =~= old(out)@ + json_text(*v));
            }
        },
        JsonValue::Object(entries) => {
            push_char(out, '{');
            append_entries_text(out, entries, 0);
            push_char(out, '}');
            proof {
                assert(out@ =~= old(out)@ + json_text(*v));
            }
        },
    }
}

/// Appends the text of an array's items from position `i` on.
fn append_items_text(out: &mut String, items: &Vec<JsonValue>, i: usize)
    requires
        i <= items@.len(),
    ensures
        final(out)@ == old(out)@ + items_text(*items, i as int),
    decreases *items, 0int, items@.len() - i,
{
    if i >= items.len() {
        proof {
            assert(out@ + Seq::<char>::empty() =~= out@);
        }
        return ;
    }
    append_json_text(out, &items[i]);
    if i + 1 < items.len() {
        push_char(out, ',');
        append_items_text(out, items, i + 1);
        proof {
            assert(out@ =~= old(out)@ + items_text(*items, i as int));
        }
    }
}

/// Appends the text of an object's fields from position `i` on.
fn append_entries_text(out: &mut String, entries: &Vec<(String, JsonValue)>, i: usize)
    requires
        i <= entries@.len(),
    ensures
        final(out)@ == old(out)@ + entries_text(*entries, i as int),
    decreases *entries, 0int, entries@.len() - i,
{
    if i >= entries.len() {
        proof {
            assert(out@ + Seq::<char>::empty() =~= out@);
        }
        return ;
    }
    push_char(out, '"');
    append_escaped(out, entries[i].0.as_str());
    push_char(out, '"');
    push_char(out, ':');
    proof {
        assert(decreases_to!(*entries => (*entries)[i as int]));
        assert(decreases_to!((*entries)[i as int] => (*entries)[i as int].1));
    }
    append_json_text(out, &entries[i].1);
    proof {
        assert(out@ =~= old(out)@ + (string_text(entries@[i as int].0@) + seq![':'] + json_text(
            entries@[i as int].1,
        )));
    }
    if i + 1 < entries.len() {
        push_char(out, ',');
        append_entries_text(out, entries, i + 1);
        proof {
            assert(out@ =~= old(out)@ + entries_text(*entries, i as int));
        }
    }
}

} // verus!

//! A JSON document as plain values, filled in by serde_json, and field lookup on it.
use vstd::prelude::*;

verus! {

/// One JSON document. Numbers keep their textual form. An object holds each
/// key once (serde_json's map keeps the last value of a repeated key) and
/// lists its members sorted by key.
#[derive(Debug, PartialEq)]
pub enum Json {
    Null,
    Bool(bool),
    Number(String),
    Str(String),
    Array(Vec<Json>),
    Object(Vec<(String, Json)>),
}

#[verifier::external_type_specification]
#[verifier::external_body]
pub struct ExValue(serde_json::Value);

/// The document that serde_json reads from a text, or `None` where the text
/// is not one well-formed JSON document.
pub uninterp spec fn parsed_json(text: Seq<char>) -> Option<Json>;

/// Relies on `serde_json::from_str::<serde_json::Value>`: parses the whole
/// text as one JSON document; the result depends on the text alone.
#[verifier::external_body]
pub(crate) fn parse_json(text: &str) -> (r: Option<Json>)
    ensures
        r == parsed_json(text@),
{
    serde_json::from_str::<serde_json::Value>(text).ok().map(json_from_value)
}

/// Moves a `serde_json::Value` into a `Json`, variant for variant; relies on
/// `serde_json::Number`'s `Display` for the textual form of a number.
#[verifier::external_body]
fn json_from_value(v: serde_json::Value) -> Json {
    match v {
        serde_json::Value::Null => Json::Null,
        serde_json::Value::Bool(b) => Json::Bool(b),
        serde_json::Value::Number(n) => Json::Number(n.to_string()),
        serde_json::Value::String(s) => Json::Str(s),
        serde_json::Value::Array(a) => Json::Array(a.into_iter().map(json_from_value).collect()),
        serde_json::Value::Object(m) => Json::Object(
            m.into_iter().map(|(k, x)| (k, json_from_value(x))).collect(),
        ),
    }
}

/// The value of the first member named `key`.
pub open spec fn field_of(fields: Seq<(String, Json)>, key: Seq<char>) -> Option<Json>
    decreases fields.len(),
{
    if fields.len() == 0 {
        None
    } else if fields[0].0@ == key {
        Some(fields[0].1)
    } else {
        field_of(fields.drop_first(), key)
    }
}

/// The string held by a member, if the member is there and is a string.
pub open spec fn str_of(v: Option<Json>) -> Option<String> {
    match v {
        Some(Json::Str(s)) => Some(s),
        _ => None,
    }
}

/// An optional string member: absent or `null` gives `Some(None)`, a string
/// gives `Some(Some(s))`, any other value gives `None` (a type mismatch).
pub open spec fn opt_str_of(v: Option<Json>) -> Option<Option<String>> {
    match v {
        None => Some(None),
        Some(Json::Null) => Some(None),
        Some(Json::Str(s)) => Some(Some(s)),
        Some(_) => None,
    }
}

/// Position of the first member named `key`.
pub fn find_field(fields: &Vec<(String, Json)>, key: &str) -> (r: Option<usize>)
    ensures
        r is None ==> field_of(fields@, key@) is None,
        r matches Some(i) ==> i < fields@.len() && field_of(fields@, key@) == Some(fields@[i as int].1),
{
    let k = key.to_owned();
    let n = fields.len();
    let mut i: usize = 0;
    assert(fields@.subrange(0, n as int) =~= fields@);
    while i < n
        invariant
            n == fields@.len(),
            i <= n,
            k@ == key@,
            field_of(fields@, key@) == field_of(fields@.subrange(i as int, n as int), key@),
        decreases n - i,
    {
        let rest = Ghost(fields@.subrange(i as int, n as int));
        assert(rest@.drop_first() =~= fields@.subrange(i + 1, n as int));
        if fields[i].0 == k {
            return Some(i);
        }
        i = i + 1;
    }
    None
}

/// The member named `key`, if it is a string.
pub fn str_field(fields: &Vec<(String, Json)>, key: &str) -> (r: Option<String>)
    ensures
        r == str_of(field_of(fields@, key@)),
{
    match find_field(fields, key) {
        None => None,
        Some(i) => match &fields[i].1 {
            Json::Str(s) => Some(s.clone()),
            _ => None,
        },
    }
}

/// The member named `key` read as an optional string (see `opt_str_of`).
pub fn opt_str_field(fields: &Vec<(String, Json)>, key: &str) -> (r: Option<Option<String>>)
    ensures
        r == opt_str_of(field_of(fields@, key@)),
{
    match find_field(fields, key) {
        None => Some(None),
        Some(i) => match &fields[i].1 {
            Json::Null => Some(None),
            Json::Str(s) => Some(Some(s.clone())),
            _ => None,
        },
    }
}

} // verus!

//! A plain-value model of JSON documents.
//!
//! Inbound frames and control-plane responses arrive as JSON text. The
//! library holds a parsed document as [`JsonValue`], a tree of plain values
//! that verified code can inspect; the parse itself is delegated to
//! `serde_json` behind a trusted boundary. Numbers never carry information in
//! this protocol, so the model keeps only the fact that a number was present.

use vstd::prelude::*;

verus! {

/// A parsed JSON document, as plain values.
///
/// Object members are kept in a vector of key/value pairs; `serde_json`
/// hands back at most one member per key, so a first-match lookup finds
/// the member for a key if there is one.
#[derive(Debug, PartialEq, Eq)]
pub enum JsonValue {
    Null,
    Bool(bool),
    /// A number was present; its value is never read by this protocol.
    Number,
    Str(String),
    Arr(Vec<JsonValue>),
    Obj(Vec<(String, JsonValue)>),
}

/// First member of `fields` at or after position `i` whose key reads `key`.
pub open spec fn lookup_field_from(
    fields: Seq<(String, JsonValue)>,
    key: Seq<char>,
    i: int,
) -> Option<JsonValue>
    decreases fields.len() - i,
{
    if i < 0 || i >= fields.len() {
        None
    } else if fields[i].0@ == key {
        Some(fields[i].1)
    } else {
        lookup_field_from(fields, key, i + 1)
    }
}

/// First member of `fields` whose key reads `key`.
pub open spec fn lookup_field(fields: Seq<(String, JsonValue)>, key: Seq<char>) -> Option<
    JsonValue,
> {
    lookup_field_from(fields, key, 0)
}

/// Member `key` of `j`, when `j` is an object that has it.
pub open spec fn get_field(j: JsonValue, key: Seq<char>) -> Option<JsonValue> {
    match j {
        JsonValue::Obj(fields) => lookup_field(fields@, key),
        _ => None,
    }
}

/// The string content of `j`, when `j` is a string.
pub open spec fn as_str(j: Option<JsonValue>) -> Option<Seq<char>> {
    match j {
        Some(JsonValue::Str(s)) => Some(s@),
        _ => None,
    }
}

/// Looks up `key` among `fields`, first match wins.
pub fn obj_get<'a>(fields: &'a Vec<(String, JsonValue)>, key: &str) -> (r: Option<&'a JsonValue>)
    ensures
        match r {
            Some(v) => lookup_field(fields@, key@) == Some(*v),
            None => lookup_field(fields@, key@) is None,
        },
{
    let key_string: String = key.to_owned();
    let n = fields.len();
    let mut i: usize = 0;
    while i < n
        invariant
            n == fields@.len(),
            i <= n,
            key_string@ == key@,
            lookup_field_from(fields@, key@, 0) == lookup_field_from(fields@, key@, i as int),
        decreases n - i,
    {
        let pair = &fields[i];
        if pair.0 == key_string {
            return Some(&fields[i].1);
        }
        i += 1;
    }
    None
}

/// Member `key` of `j`, when `j` is an object that has it.
pub fn value_get<'a>(j: &'a JsonValue, key: &str) -> (r: Option<&'a JsonValue>)
    ensures
        match r {
            Some(v) => get_field(*j, key@) == Some(*v),
            None => get_field(*j, key@) is None,
        },
{
    match j {
        JsonValue::Obj(fields) => obj_get(fields, key),
        _ => None,
    }
}

/// What `serde_json` parses the given text to, as this library's model:
/// `None` when the text is not valid JSON.
pub uninterp spec fn json_of(text: Seq<char>) -> Option<JsonValue>;

/// Relies on `serde_json::Value`: the parsed tree whose variants
/// [`from_value`] converts one for one.
#[verifier::external_type_specification]
#[verifier::external_body]
pub struct ExValue(serde_json::Value);

/// Relies on `serde_json::Value`: converts each of its variants to the
/// matching [`JsonValue`] variant, moving the fields; numbers lose their
/// value, which this protocol never reads. Serves [`parse_json`] alone.
#[verifier::external_body]
fn from_value(v: serde_json::Value) -> JsonValue {
    match v {
        serde_json::Value::Null => JsonValue::Null,
        serde_json::Value::Bool(b) => JsonValue::Bool(b),
        serde_json::Value::Number(_) => JsonValue::Number,
        serde_json::Value::String(s) => JsonValue::Str(s),
        serde_json::Value::Array(a) => JsonValue::Arr(a.into_iter().map(from_value).collect()),
        serde_json::Value::Object(m) => JsonValue::Obj(
            m.into_iter().map(|(k, w)| (k, from_value(w))).collect(),
        ),
    }
}

/// Relies on `serde_json::from_str`: whether a text parses, and to which
/// tree, depends on the text alone; [`json_of`] names that outcome.
#[verifier::external_body]
pub fn parse_json(text: &str) -> (r: Option<JsonValue>)
    ensures
        r == json_of(text@),
{
    match serde_json::from_str::<serde_json::Value>(text) {
        Ok(v) => Some(from_value(v)),
        Err(_) => None,
    }
}

} // verus!

//! The boundary to the JSON library.  Remote response bodies arrive as
//! text; what a body parses to, what a field lookup finds and what a
//! value holds are named here, and one trusted wrapper per library
//! function connects the names to the library that does the work.
//! Everything downstream of these wrappers is verified against the names.

use vstd::prelude::*;

verus! {

#[verifier::external_type_specification]
#[verifier::external_body]
pub struct ExValue(serde_json::Value);

/// What `s` parses to as a JSON document: `None` when `s` is not valid
/// JSON, otherwise the parsed tree.
pub uninterp spec fn json_value_of(s: Seq<char>) -> Option<serde_json::Value>;

/// What `s` parses to as a JSON array: `None` when `s` is not a valid
/// JSON array, otherwise its elements in order.
pub uninterp spec fn json_array_of(s: Seq<char>) -> Option<Seq<serde_json::Value>>;

/// The field `key` of `v`: `None` when `v` is not an object or lacks the
/// field, otherwise the value under the key.
pub uninterp spec fn field_of(v: serde_json::Value, key: Seq<char>) -> Option<serde_json::Value>;

/// The boolean that `v` is: `None` when `v` is not a JSON boolean.
pub uninterp spec fn as_bool_of(v: serde_json::Value) -> Option<bool>;

/// The text that `v` is: `None` when `v` is not a JSON string.
pub uninterp spec fn as_str_of(v: serde_json::Value) -> Option<Seq<char>>;

/// Relies on `serde_json::from_str::<Value>`: parsing is a function of the
/// input text alone, and fails exactly on text that is not valid JSON.
#[verifier::external_body]
pub(crate) fn parse_json(s: &str) -> (r: Option<serde_json::Value>)
    ensures
        r == json_value_of(s@),
{
    serde_json::from_str(s).ok()
}

/// Relies on `serde_json::from_str::<Vec<Value>>`: it succeeds exactly on
/// a JSON array, and returns its elements in order.
#[verifier::external_body]
pub(crate) fn parse_json_array(s: &str) -> (r: Option<Vec<serde_json::Value>>)
    ensures
        match r {
            None => json_array_of(s@) is None,
            Some(vs) => json_array_of(s@) == Some(vs@),
        },
{
    serde_json::from_str(s).ok()
}

/// Relies on `serde_json::Value::get` with a string index: on an object
/// it returns the value under the key, and `None` on a missing key or on
/// any other kind of value.
#[verifier::external_body]
pub(crate) fn get_field<'a>(v: &'a serde_json::Value, key: &str) -> (r: Option<
    &'a serde_json::Value,
>)
    ensures
        match r {
            None => field_of(*v, key@) is None,
            Some(f) => field_of(*v, key@) == Some(*f),
        },
{
    v.get(key)
}

/// Relies on `serde_json::Value::as_bool`: it returns the boolean behind
/// a `Value::Bool` and `None` on any other kind of value.
#[verifier::external_body]
pub(crate) fn value_as_bool(v: &serde_json::Value) -> (r: Option<bool>)
    ensures
        r == as_bool_of(*v),
{
    v.as_bool()
}

/// Relies on `serde_json::Value::as_str`: it returns the text behind a
/// `Value::String` and `None` on any other kind of value; `str::to_owned`
/// copies the text out.
#[verifier::external_body]
pub(crate) fn value_as_str(v: &serde_json::Value) -> (r: Option<String>)
    ensures
        match r {
            None => as_str_of(*v) is None,
            Some(text) => as_str_of(*v) == Some(text@),
        },
{
    Some(v.as_str()?.to_owned())
}

/// The boolean field `key` of the JSON object `v`: `None` when `v` is not
/// an object, lacks the field, or holds it with a non-boolean value.
pub open spec fn bool_field_of(v: serde_json::Value, key: Seq<char>) -> Option<bool> {
    match field_of(v, key) {
        None => None,
        Some(f) => as_bool_of(f),
    }
}

/// Reads the boolean field `key` of the JSON object `v`.
pub fn bool_field(v: &serde_json::Value, key: &str) -> (r: Option<bool>)
    ensures
        r == bool_field_of(*v, key@),
{
    match get_field(v, key) {
        None => None,
        Some(f) => value_as_bool(f),
    }
}

/// The string field `key` of the JSON object `v`: `None` when `v` is not
/// an object, lacks the field, or holds it with a non-string value.
pub open spec fn str_field_of(v: serde_json::Value, key: Seq<char>) -> Option<Seq<char>> {
    match field_of(v, key) {
        None => None,
        Some(f) => as_str_of(f),
    }
}

/// Reads the string field `key` of the JSON object `v`.
pub fn str_field(v: &serde_json::Value, key: &str) -> (r: Option<String>)
    ensures
        match r {
            None => str_field_of(*v, key@) is None,
            Some(text) => str_field_of(*v, key@) == Some(text@),
        },
{
    match get_field(v, key) {
        None => None,
        Some(f) => value_as_str(f),
    }
}

/// The boolean field `key` of the top-level object that `s` parses to.
pub open spec fn json_bool_field(s: Seq<char>, key: Seq<char>) -> Option<bool> {
    match json_value_of(s) {
        None => None,
        Some(v) => bool_field_of(v, key),
    }
}

/// Parses `s` and reads its top-level boolean field `key`.
pub fn top_level_bool_field(s: &str, key: &str) -> (r: Option<bool>)
    ensures
        r == json_bool_field(s@, key@),
{
    match parse_json(s) {
        None => None,
        Some(v) => bool_field(&v, key),
    }
}

} // verus!

//! The few reads of JSON documents that the library makes, each through
//! `serde_json`.
use vstd::prelude::*;

verus! {

#[verifier::external_type_specification]
#[verifier::external_body]
pub struct ExJsonValue(serde_json::Value);

#[verifier::external_type_specification]
#[verifier::external_body]
pub struct ExJsonError(serde_json::Error);

/// The document that a text parses to, if it is valid JSON.
pub uninterp spec fn json_parse(text: Seq<char>) -> Option<serde_json::Value>;

/// The items of the array stored under `key` of an object, if there is one.
pub uninterp spec fn json_array_field(v: serde_json::Value, key: Seq<char>) -> Option<
    Seq<serde_json::Value>,
>;

/// The text stored under `key` of an object, if that member is a string.
pub uninterp spec fn json_str_field(v: serde_json::Value, key: Seq<char>) -> Option<Seq<char>>;

/// Relies on `serde_json::from_str`: parses the whole text as one JSON value,
/// failing on malformed input; the outcome depends on the text alone.
#[verifier::external_body]
pub(crate) fn parse_json(text: &str) -> (r: Result<serde_json::Value, serde_json::Error>)
    ensures
        match r {
            Ok(v) => json_parse(text@) == Some(v),
            Err(_) => json_parse(text@).is_none(),
        },
{
    serde_json::from_str(text)
}

/// Relies on `serde_json::Value::get`: looks `key` up in an object (none for
/// any other kind of value); the member is kept only if it is an array.
#[verifier::external_body]
pub(crate) fn array_field(v: &serde_json::Value, key: &str) -> (r: Option<Vec<serde_json::Value>>)
    ensures
        match r {
            Some(items) => json_array_field(*v, key@) == Some(items@),
            None => json_array_field(*v, key@).is_none(),
        },
{
    match v.get(key) {
        Some(serde_json::Value::Array(items)) => Some(items.clone()),
        _ => None,
    }
}

/// Relies on `serde_json::Value::get`: looks `key` up in an object (none for
/// any other kind of value); the member is kept only if it is a string.
#[verifier::external_body]
pub(crate) fn str_field(v: &serde_json::Value, key: &str) -> (r: Option<String>)
    ensures
        match r {
            Some(s) => json_str_field(*v, key@) == Some(s@),
            None => json_str_field(*v, key@).is_none(),
        },
{
    match v.get(key) {
        Some(serde_json::Value::String(s)) => Some(s.clone()),
        _ => None,
    }
}

} // verus!

//! Reading single members out of a JSON reply body.
use vstd::prelude::*;

verus! {

/// The string held under `key` in the JSON object that `body` holds.
pub uninterp spec fn json_text_member(body: Seq<char>, key: Seq<char>) -> Option<Seq<char>>;

/// The integer (in `i64` range) held under `key` in the JSON object that `body` holds.
pub uninterp spec fn json_int_member(body: Seq<char>, key: Seq<char>) -> Option<i64>;

/// The boolean held under `key` in the JSON object that `body` holds.
pub uninterp spec fn json_bool_member(body: Seq<char>, key: Seq<char>) -> Option<bool>;

/// Whether `body` parses as JSON and holds nothing, or null, under `key`.
pub uninterp spec fn json_null_member(body: Seq<char>, key: Seq<char>) -> bool;

/// The view of an optional string.
pub open spec fn text_view(s: Option<String>) -> Option<Seq<char>> {
    match s {
        Some(s) => Some(s@),
        None => None,
    }
}

/// Relies on serde_json::from_str into serde_json::Value, Value::get and
/// Value::as_str: the string under `key`, where `body` parses as JSON, is an
/// object, and holds a string there.
#[verifier::external_body]
pub(crate) fn text_member(body: &str, key: &str) -> (r: Option<String>)
    ensures
        text_view(r) == json_text_member(body@, key@),
{
    let value: serde_json::Value = serde_json::from_str(body).ok()?;
    value.get(key)?.as_str().map(|s| s.to_string())
}

/// Relies on serde_json::from_str into serde_json::Value, Value::get and
/// Value::as_i64: the integer under `key`, where `body` parses as JSON, is an
/// object, and holds there an integer that fits an `i64`.
#[verifier::external_body]
pub(crate) fn int_member(body: &str, key: &str) -> (r: Option<i64>)
    ensures
        r == json_int_member(body@, key@),
{
    let value: serde_json::Value = serde_json::from_str(body).ok()?;
    value.get(key)?.as_i64()
}

/// Relies on serde_json::from_str into serde_json::Value, Value::get and
/// Value::as_bool: the boolean under `key`, where `body` parses as JSON, is an
/// object, and holds a boolean there.
#[verifier::external_body]
pub(crate) fn bool_member(body: &str, key: &str) -> (r: Option<bool>)
    ensures
        r == json_bool_member(body@, key@),
{
    let value: serde_json::Value = serde_json::from_str(body).ok()?;
    value.get(key)?.as_bool()
}

/// Relies on serde_json::from_str into serde_json::Value, Value::get and
/// Value::is_null: whether `body` parses as JSON and `get(key)` finds nothing
/// or null (`get` finds nothing in a value that is not an object).
#[verifier::external_body]
pub(crate) fn null_member(body: &str, key: &str) -> (r: bool)
    ensures
        r == json_null_member(body@, key@),
{
    match serde_json::from_str::<serde_json::Value>(body) {
        Ok(value) => value.get(key).map_or(true, |m| m.is_null()),
        Err(_) => false,
    }
}

} // verus!

//! What the decision modules read from JSON text, each through one
//! `serde_json::from_str::<Value>` call behind a trusted wrapper.

use vstd::prelude::*;
use serde_json::Value;

verus! {

/// Whether `serde_json` parses `text` as a JSON value.
pub uninterp spec fn json_parses(text: Seq<char>) -> bool;

/// Whether `text` parses as a JSON object.
pub uninterp spec fn json_is_object(text: Seq<char>) -> bool;

/// Length of the array stored under `key` of the JSON object `text`;
/// `None` when the text does not parse, is not an object, or holds no
/// array there.
pub uninterp spec fn json_array_len(text: Seq<char>, key: Seq<char>) -> Option<usize>;

/// The string stored under `key` of the JSON value `text`: `None` when the
/// text does not parse, `Some(None)` when it is not an object or holds no
/// string there.
pub uninterp spec fn json_string_field(text: Seq<char>, key: Seq<char>) -> Option<
    Option<Seq<char>>,
>;

/// `serde_json::from_str::<Value>(text)` succeeds.
#[verifier::external_body]
pub(crate) fn parses_as_json(text: &str) -> (res: bool)
    ensures
        res == json_parses(text@),
{
    serde_json::from_str::<Value>(text).is_ok()
}

/// `serde_json::from_str::<Value>(text)` gives an object.
#[verifier::external_body]
pub(crate) fn parses_as_object(text: &str) -> (res: bool)
    ensures
        res == json_is_object(text@),
{
    match serde_json::from_str::<Value>(text) {
        Ok(Value::Object(_)) => true,
        _ => false,
    }
}

/// `serde_json::from_str::<Value>(text)`, then the array under `key`, by
/// its length.
#[verifier::external_body]
pub(crate) fn array_len_of(text: &str, key: &str) -> (res: Option<usize>)
    ensures
        res == json_array_len(text@, key@),
{
    match serde_json::from_str::<Value>(text) {
        Ok(Value::Object(m)) => match m.get(key) {
            Some(Value::Array(a)) => Some(a.len()),
            _ => None,
        },
        _ => None,
    }
}

/// `serde_json::from_str::<Value>(text)`, then the string under `key`.
#[verifier::external_body]
pub(crate) fn string_field_of(text: &str, key: &str) -> (res: Option<Option<String>>)
    ensures
        json_string_field(text@, key@) == match res {
            None => None,
            Some(None) => Some(None),
            Some(Some(s)) => Some(Some(s@)),
        },
{
    match serde_json::from_str::<Value>(text) {
        Ok(Value::Object(m)) => match m.get(key) {
            Some(Value::String(s)) => Some(Some(s.clone())),
            _ => Some(None),
        },
        Ok(_) => Some(None),
        Err(_) => None,
    }
}

} // verus!

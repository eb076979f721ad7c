//! Reading one string field out of a JSON text, with `serde_json`.
use crate::text::opt_text;
use serde_json::Value;
use vstd::prelude::*;

verus! {

/// A parsed JSON value.
#[verifier::external_type_specification]
#[verifier::external_body]
pub struct ExValue(serde_json::Value);

/// Why a text is not JSON.
#[verifier::external_type_specification]
#[verifier::external_body]
pub struct ExJsonError(serde_json::Error);

/// The value that `serde_json::from_str` reads from a text; `None` when it
/// reports an error.
pub uninterp spec fn json_value(text: Seq<char>) -> Option<Value>;

/// What a JSON object holds: its members by key. `None` when the value is
/// not an object.
pub uninterp spec fn json_members(value: Value) -> Option<Map<Seq<char>, Value>>;

/// What a JSON string holds: its characters. `None` when the value is not a
/// string.
pub uninterp spec fn json_chars(value: Value) -> Option<Seq<char>>;

/// `serde_json::from_str` at `Value`: parses a text, or says why it is not
/// JSON.
#[verifier::external_body]
pub(crate) fn parse(text: &str) -> (r: Result<Value, serde_json::Error>)
    ensures
        match r {
            Ok(value) => json_value(text@) == Some(value),
            Err(_) => json_value(text@) is None,
        },
{
    serde_json::from_str(text)
}

/// `serde_json::Value::get` with a string key: the member of an object.
/// There is none when the value is not an object or lacks the key.
#[verifier::external_body]
pub(crate) fn member<'a>(value: &'a Value, key: &str) -> (r: Option<&'a Value>)
    ensures
        match r {
            Some(found) => json_members(*value) matches Some(members) && members.contains_key(key@)
                && members[key@] == *found,
            None => json_members(*value) matches Some(members) ==> !members.contains_key(key@),
        },
{
    value.get(key)
}

/// `serde_json::Value::as_str`: the text of a string value, and nothing for
/// any other value.
pub assume_specification[ serde_json::Value::as_str ](value: &Value) -> (r: Option<&str>)
    ensures
        match r {
            Some(text) => json_chars(*value) == Some(text@),
            None => json_chars(*value) is None,
        },
;

/// The string under `key` in the JSON object that `text` is; `None` when the
/// text is not JSON, not an object, lacks the key, or has something else
/// than a string there.
pub open spec fn string_field(text: Seq<char>, key: Seq<char>) -> Option<Seq<char>> {
    match json_value(text) {
        Some(value) => match json_members(value) {
            Some(members) => if members.contains_key(key) {
                json_chars(members[key])
            } else {
                None
            },
            None => None,
        },
        None => None,
    }
}

/// Reads the string under `key` of a JSON object.
pub fn read_string_field(text: &str, key: &str) -> (r: Option<String>)
    ensures
        opt_text(r) == string_field(text@, key@),
{
    match parse(text) {
        Ok(value) => match member(&value, key) {
            Some(found) => match found.as_str() {
                Some(field) => Some(field.to_owned()),
                None => None,
            },
            None => None,
        },
        Err(_) => None,
    }
}

} // verus!

//! The boundary to serde_json, the marshalling crate JSON bodies are
//! parsed with. Each call's result is given a name — a function of the
//! body bytes and the key alone — and every decision on those results
//! stands in verified code.

use vstd::prelude::*;
use crate::bytesx::views_of;

verus! {

/// What serde_json finds for the string field `key` of a JSON object
/// `body`: its text, or nothing when `body` is not a JSON object or the
/// field is absent or not a string.
pub uninterp spec fn json_str_field(body: Seq<u8>, key: Seq<char>) -> Option<Seq<u8>>;

/// What serde_json finds for the array-of-strings field `key` of a JSON
/// object `body`.
pub uninterp spec fn json_str_list_field(body: Seq<u8>, key: Seq<char>) -> Option<Seq<Seq<u8>>>;

/// Whether serde_json parses `body` as a JSON object carrying a field
/// `key`, of whatever type.
pub uninterp spec fn json_field_present(body: Seq<u8>, key: Seq<char>) -> bool;

/// Relies on serde_json::from_slice and Map::get: parses `body` as a
/// JSON object and hands out its string field `key`, byte for byte.
#[verifier::external_body]
pub fn json_string_field(body: &[u8], key: &str) -> (r: Option<Vec<u8>>)
    ensures
        match r {
            Option::Some(v) => json_str_field(body@, key@) == Option::Some(v@),
            Option::None => json_str_field(body@, key@) == Option::<Seq<u8>>::None,
        },
{
    match serde_json::from_slice::<serde_json::Value>(body) {
        Ok(serde_json::Value::Object(m)) => match m.get(key) {
            Some(serde_json::Value::String(s)) => Some(s.clone().into_bytes()),
            _ => None,
        },
        _ => None,
    }
}

/// Relies on serde_json::from_slice and Map::get: parses `body` as a
/// JSON object and hands out its field `key` as a list of strings.
#[verifier::external_body]
pub fn json_string_list_field(body: &[u8], key: &str) -> (r: Option<Vec<Vec<u8>>>)
    ensures
        match r {
            Option::Some(v) => json_str_list_field(body@, key@) == Option::Some(views_of(v@)),
            Option::None => json_str_list_field(body@, key@) == Option::<Seq<Seq<u8>>>::None,
        },
{
    match serde_json::from_slice::<serde_json::Value>(body) {
        Ok(serde_json::Value::Object(m)) => match m.get(key) {
            Some(serde_json::Value::Array(items)) => items
                .iter()
                .map(|it| match it {
                    serde_json::Value::String(s) => Some(s.clone().into_bytes()),
                    _ => None,
                })
                .collect::<Option<Vec<Vec<u8>>>>(),
            _ => None,
        },
        _ => None,
    }
}

/// Relies on serde_json::from_slice and Map::contains_key: whether
/// `body` is a JSON object with a field `key`.
#[verifier::external_body]
pub fn json_has_field(body: &[u8], key: &str) -> (r: bool)
    ensures
        r == json_field_present(body@, key@),
{
    match serde_json::from_slice::<serde_json::Value>(body) {
        Ok(serde_json::Value::Object(m)) => m.contains_key(key),
        _ => false,
    }
}

} // verus!

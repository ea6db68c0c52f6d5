//! JSON payloads. The values are `serde_json`'s; this module names what its
//! calls return, so that the contracts of the codec and of the managers can
//! speak of them.

use crate::bytes::as_text;
use serde_json::Value;
use vstd::prelude::*;
use vstd::utf8::{decode_utf8, valid_utf8};

verus! {

/// `serde_json::Value`: a JSON value, carried as it is.
#[verifier::external_type_specification]
#[verifier::external_body]
pub struct ExValue(serde_json::Value);

/// `Value`'s `Clone`: the copy is the value.
pub assume_specification[ <serde_json::Value as Clone>::clone ](value: &Value) -> (copy: Value)
    ensures
        copy == *value,
;

/// The value that `serde_json::from_str` reads from a text: `None` where it
/// reports an error.
pub uninterp spec fn json_parse(text: Seq<char>) -> Option<Value>;

/// The compact text that `serde_json` prints for a value.
pub uninterp spec fn json_text(value: Value) -> Seq<char>;

/// The member that `serde_json::Value::get` finds under a string key.
pub uninterp spec fn json_member(value: Value, key: Seq<char>) -> Option<Value>;

/// The text that `serde_json::Value::as_str` finds in a value.
pub uninterp spec fn json_string(value: Value) -> Option<Seq<char>>;

/// The value that a frame's body carries: the bytes have to be UTF-8, and the
/// text a JSON document.
pub open spec fn body_value(body: Seq<u8>) -> Option<Value> {
    if valid_utf8(body) {
        json_parse(decode_utf8(body))
    } else {
        None
    }
}

/// The string under `method` in a payload, where the payload is an object
/// that has one.
pub open spec fn method_tag(payload: Value) -> Option<Seq<char>> {
    match json_member(payload, "method"@) {
        Some(method) => json_string(method),
        None => None,
    }
}

/// `serde_json::from_str`, read as a `Value`. The result is the one that
/// `json_parse` names; the error, where there is one, is dropped.
#[verifier::external_body]
pub(crate) fn parse(text: &str) -> (parsed: Option<Value>)
    ensures
        parsed == json_parse(text@),
{
    serde_json::from_str::<Value>(text).ok()
}

/// `Value`'s `Display`, through `to_string`: the compact JSON text of the
/// value, which `json_text` names.
#[verifier::external_body]
pub(crate) fn text_of(value: &Value) -> (text: String)
    ensures
        text@ == json_text(*value),
{
    value.to_string()
}

/// `serde_json::Value::get` with a string key: the member that `json_member`
/// names.
#[verifier::external_body]
pub(crate) fn member<'a>(value: &'a Value, key: &str) -> (found: Option<&'a Value>)
    ensures
        found.is_some() == json_member(*value, key@).is_some(),
        found matches Some(m) ==> json_member(*value, key@) == Some(*m),
{
    value.get(key)
}

/// `serde_json::Value::as_str`: the text that `json_string` names.
#[verifier::external_body]
pub(crate) fn as_string<'a>(value: &'a Value) -> (text: Option<&'a str>)
    ensures
        text.is_some() == json_string(*value).is_some(),
        text matches Some(t) ==> json_string(*value) == Some(t@),
{
    value.as_str()
}

/// Reads the value that a frame's body carries.
pub fn decode_body(body: &[u8]) -> (value: Option<Value>)
    ensures
        value == body_value(body@),
{
    match as_text(body) {
        Some(text) => parse(text),
        None => None,
    }
}

/// Reads the method tag of a payload.
pub fn method_of<'a>(payload: &'a Value) -> (tag: Option<&'a str>)
    ensures
        tag.is_some() == method_tag(*payload).is_some(),
        tag matches Some(t) ==> method_tag(*payload) == Some(t@),
{
    match member(payload, "method") {
        Some(method) => as_string(method),
        None => None,
    }
}

} // verus!

//! JSON documents as the delivery service writes and reads them, through
//! `serde_json`. Nothing in this file is proved: each function states what
//! the library assumes of the call it makes.

use vstd::prelude::*;

verus! {

/// A parsed JSON value. Opaque here: it is read through the functions below.
#[verifier::external_type_specification]
#[verifier::external_body]
pub struct ExJsonValue(serde_json::Value);

/// The value that `serde_json::from_slice` reads from `text`, if it reads one.
pub uninterp spec fn json_document(text: Seq<u8>) -> Option<serde_json::Value>;

/// The member of an object under `key`: what `Value::get` returns for a string key.
pub uninterp spec fn json_member(value: serde_json::Value, key: Seq<char>) -> Option<
    serde_json::Value,
>;

/// The text of a string value: what `Value::as_str` returns.
pub uninterp spec fn json_text(value: serde_json::Value) -> Option<Seq<char>>;

/// The items of an array value: what `Value::as_array` returns.
pub uninterp spec fn json_items(value: serde_json::Value) -> Option<Seq<serde_json::Value>>;

/// The JSON string literal for `text`, quotes and escapes included: what
/// `Value::String` prints as.
pub uninterp spec fn json_quoted(text: Seq<char>) -> Seq<char>;

/// Calls `serde_json::from_slice` for a `Value`. Assumed: the outcome is a
/// function of the bytes alone, `None` standing for any parse error.
#[verifier::external_body]
pub(crate) fn parse_document(text: &[u8]) -> (r: Option<serde_json::Value>)
    ensures
        r == json_document(text@),
{
    serde_json::from_slice::<serde_json::Value>(text).ok()
}

/// Calls `Value::get` with a string key. Assumed: the result is the member
/// of that name where `value` is an object that has one, else `None`.
#[verifier::external_body]
pub(crate) fn member(value: &serde_json::Value, key: &str) -> (r: Option<serde_json::Value>)
    ensures
        r == json_member(*value, key@),
{
    value.get(key).cloned()
}

/// Calls `Value::as_str`. Assumed: the result is the string's text where
/// `value` is a string, else `None`.
#[verifier::external_body]
pub(crate) fn text(value: &serde_json::Value) -> (r: Option<String>)
    ensures
        r is Some <==> json_text(*value) is Some,
        r is Some ==> r->0@ == json_text(*value)->0,
{
    match value.as_str() {
        Some(content) => Some(content.to_string()),
        None => None,
    }
}

/// Calls `Value::as_array`. Assumed: the result holds the array's items in
/// order where `value` is an array, else `None`.
#[verifier::external_body]
pub(crate) fn items(value: &serde_json::Value) -> (r: Option<Vec<serde_json::Value>>)
    ensures
        r is Some <==> json_items(*value) is Some,
        r is Some ==> r->0@ == json_items(*value)->0,
{
    value.as_array().cloned()
}

/// Prints `Value::String` of `text`. Assumed: the result is a function of
/// the text alone.
#[verifier::external_body]
pub(crate) fn quoted(text: &str) -> (r: String)
    ensures
        r@ == json_quoted(text@),
{
    serde_json::Value::String(text.to_string()).to_string()
}

} // verus!

//! Reading JSON documents with `serde_json`.
//!
//! A parsed document is a `serde_json::Value`, which stays opaque here: the
//! functions below name what the parser and the accessors return, and the
//! rest of the crate reasons over those names.

use vstd::prelude::*;

verus! {

/// `serde_json::Value`, a parsed JSON document or a part of one.
#[verifier::external_type_specification]
#[verifier::external_body]
pub struct ExValue(serde_json::Value);

/// `serde_json::Error`, which says where a text stops being JSON.
#[verifier::external_type_specification]
#[verifier::external_body]
pub struct ExJsonError(serde_json::Error);

/// What `serde_json::from_str` makes of a text: the document, or the error
/// that says where the text stops being JSON.
pub uninterp spec fn json_of(text: Seq<char>) -> Result<serde_json::Value, serde_json::Error>;

/// The member of a JSON object under a key; `None` where the value is no
/// object or the object has no such key.
pub uninterp spec fn json_member(value: serde_json::Value, key: Seq<char>) -> Option<
    serde_json::Value,
>;

/// The text of a JSON string; `None` for every other kind of value.
pub uninterp spec fn json_string(value: serde_json::Value) -> Option<Seq<char>>;

/// The elements of a JSON array, in order; `None` for every other kind of
/// value.
pub uninterp spec fn json_items(value: serde_json::Value) -> Option<Seq<serde_json::Value>>;

/// The `Debug` rendering of a parse error.
pub uninterp spec fn json_error_text(error: serde_json::Error) -> Seq<char>;

/// Parses `text` with `serde_json::from_str` into a `serde_json::Value`.
/// Trusted: parsing is a function of the text alone.
#[verifier::external_body]
pub(crate) fn parse(text: &str) -> (parsed: Result<serde_json::Value, serde_json::Error>)
    ensures
        parsed == json_of(text@),
{
    serde_json::from_str::<serde_json::Value>(text)
}

/// Looks a key up with `serde_json::Value::get`. Trusted: the result is the
/// object's member under `key`, and `None` where `value` is no object or has
/// no such member.
#[verifier::external_body]
pub(crate) fn member<'a>(value: &'a serde_json::Value, key: &str) -> (found: Option<
    &'a serde_json::Value,
>)
    ensures
        found is Some <==> json_member(*value, key@) is Some,
        found matches Some(inner) ==> json_member(*value, key@) == Some(*inner),
{
    value.get(key)
}

/// `serde_json::Value::as_str`: the text where the value is a JSON string,
/// `None` otherwise.
pub assume_specification[ serde_json::Value::as_str ](value: &serde_json::Value) -> (text: Option<
    &str,
>)
    ensures
        text is Some <==> json_string(*value) is Some,
        text matches Some(t) ==> json_string(*value) == Some(t@),
;

/// `serde_json::Value::as_array`: the elements where the value is a JSON
/// array, `None` otherwise.
pub assume_specification[ serde_json::Value::as_array ](value: &serde_json::Value) -> (items:
    Option<&Vec<serde_json::Value>>)
    ensures
        items is Some <==> json_items(*value) is Some,
        items matches Some(v) ==> json_items(*value) == Some(v@),
;

/// Renders a parse error with its `Debug` impl. Trusted: the rendering is a
/// function of the error alone.
#[verifier::external_body]
pub(crate) fn error_text(error: &serde_json::Error) -> (text: String)
    ensures
        text@ == json_error_text(*error),
{
    format!("{:?}", error)
}

/// The text of the string member `key` of `value`, where there is one.
pub open spec fn text_member(value: serde_json::Value, key: Seq<char>) -> Option<Seq<char>> {
    match json_member(value, key) {
        Some(inner) => json_string(inner),
        None => None,
    }
}

/// Reads the string member `key` of `value`.
pub fn text_of_member(value: &serde_json::Value, key: &str) -> (text: Option<String>)
    ensures
        text is Some <==> text_member(*value, key@) is Some,
        text matches Some(t) ==> text_member(*value, key@) == Some(t@),
{
    match member(value, key) {
        Some(inner) => match inner.as_str() {
            Some(t) => Some(t.to_owned()),
            None => None,
        },
        None => None,
    }
}

} // verus!

//! Reading JSON documents with `serde_json`.
//!
//! A parsed document is opaque to the verifier. What the parser and the
//! accessors return is given a name each; the contracts of this crate speak of
//! those names, and nothing is proved of `serde_json` itself.

use vstd::prelude::*;

verus! {

/// Declares `serde_json::Value`, a parsed JSON document, as a type whose inside
/// the verifier does not see.
#[verifier::external_type_specification]
#[verifier::external_body]
pub struct ExJsonValue(serde_json::Value);

/// The document that `serde_json::from_str` reads from `text`; `None` where it
/// reports an error.
pub uninterp spec fn json_document(text: Seq<char>) -> Option<serde_json::Value>;

/// What indexing `value` with the string `key` gives: the member of that name
/// where `value` is an object that has one, the null value otherwise.
pub uninterp spec fn json_member(value: serde_json::Value, key: Seq<char>) -> serde_json::Value;

/// What `serde_json::Value::as_str` gives: the characters of `value` where it is
/// a JSON string.
pub uninterp spec fn json_text(value: serde_json::Value) -> Option<Seq<char>>;

/// What `serde_json::Value::as_u64` gives: the number where `value` is an
/// integer that fits a `u64`.
pub uninterp spec fn json_unsigned(value: serde_json::Value) -> Option<u64>;

/// Calls `serde_json::from_str` for a `serde_json::Value`. The contract only
/// names the result: the same text always reads as the same document.
#[verifier::external_body]
pub(crate) fn parse(text: &str) -> (r: Option<serde_json::Value>)
    ensures
        r == json_document(text@),
{
    serde_json::from_str(text).ok()
}

/// Indexes a `serde_json::Value` with a string key (its `Index<&str>` impl),
/// which never fails: the contract only names the value that comes back.
#[verifier::external_body]
pub(crate) fn member<'a>(value: &'a serde_json::Value, key: &str) -> (r: &'a serde_json::Value)
    ensures
        *r == json_member(*value, key@),
{
    &value[key]
}

/// Calls `serde_json::Value::as_str` and copies the string out. The contract
/// only names the result.
#[verifier::external_body]
pub(crate) fn as_text(value: &serde_json::Value) -> (r: Option<String>)
    ensures
        r.is_some() == json_text(*value).is_some(),
        r.is_some() ==> r.unwrap()@ == json_text(*value).unwrap(),
{
    value.as_str().map(String::from)
}

/// Calls `serde_json::Value::as_u64`. The contract only names the result.
#[verifier::external_body]
pub(crate) fn as_unsigned(value: &serde_json::Value) -> (r: Option<u64>)
    ensures
        r == json_unsigned(*value),
{
    value.as_u64()
}

/// The string under `key` in `value`, if there is one.
pub open spec fn text_member(value: serde_json::Value, key: Seq<char>) -> Option<Seq<char>> {
    json_text(json_member(value, key))
}

/// The string under `inner` in the member `outer` of `value`, if there is one.
pub open spec fn nested_text_member(
    value: serde_json::Value,
    outer: Seq<char>,
    inner: Seq<char>,
) -> Option<Seq<char>> {
    json_text(json_member(json_member(value, outer), inner))
}

/// The unsigned integer under `inner` in the member `outer` of `value`, if
/// there is one.
pub open spec fn nested_unsigned_member(
    value: serde_json::Value,
    outer: Seq<char>,
    inner: Seq<char>,
) -> Option<u64> {
    json_unsigned(json_member(json_member(value, outer), inner))
}

/// The view of an optional string.
pub open spec fn text_view(s: Option<String>) -> Option<Seq<char>> {
    match s {
        Some(s) => Some(s@),
        None => None,
    }
}

/// Reads the string under `key`.
pub fn text_at(value: &serde_json::Value, key: &str) -> (r: Option<String>)
    ensures
        text_view(r) == text_member(*value, key@),
{
    as_text(member(value, key))
}

/// Reads the string under `inner` in the member `outer`.
pub fn nested_text_at(value: &serde_json::Value, outer: &str, inner: &str) -> (r: Option<String>)
    ensures
        text_view(r) == nested_text_member(*value, outer@, inner@),
{
    as_text(member(member(value, outer), inner))
}

/// Reads the unsigned integer under `inner` in the member `outer`.
pub fn nested_unsigned_at(value: &serde_json::Value, outer: &str, inner: &str) -> (r: Option<u64>)
    ensures
        r == nested_unsigned_member(*value, outer@, inner@),
{
    as_unsigned(member(member(value, outer), inner))
}

} // verus!

//! JSON documents, read through `serde_json`.
//!
//! A document is held as a `serde_json::Value`, which nothing here looks
//! inside. What a value holds is named by the uninterpreted functions below,
//! one for each function of `serde_json` that is called: the same arguments
//! give the same result. Nothing in this module is proved.

use vstd::prelude::*;

verus! {

/// `serde_json::Value`: a JSON document or a part of one. Opaque here.
#[verifier::external_type_specification]
#[verifier::external_body]
pub struct ExJsonValue(serde_json::Value);

/// `serde_json::Error`: why a text is no JSON document. Opaque here.
#[verifier::external_type_specification]
#[verifier::external_body]
pub struct ExJsonError(serde_json::Error);

/// The document that `serde_json::from_slice` reads from `body`, or `None`
/// where it reports an error.
pub uninterp spec fn json_document(body: Seq<u8>) -> Option<serde_json::Value>;

/// The member of `value` under `key` as `serde_json::Value::get` gives it:
/// `None` where `value` is no object or has no such member.
pub uninterp spec fn json_member(value: serde_json::Value, key: Seq<char>) -> Option<
    serde_json::Value,
>;

/// The text of `value` as `serde_json::Value::as_str` gives it: `None` where
/// `value` is no string.
pub uninterp spec fn json_text(value: serde_json::Value) -> Option<Seq<char>>;

/// The number `value` as `serde_json::Value::as_i64` gives it: `None` where
/// `value` is no integer that fits `i64`.
pub uninterp spec fn json_integer(value: serde_json::Value) -> Option<i64>;

/// Calls `serde_json::from_slice` for a `serde_json::Value`. The result is
/// `json_document(body)`: the document, or the error in place of `None`.
#[verifier::external_body]
pub(crate) fn parse_document(body: &[u8]) -> (parsed: Result<serde_json::Value, serde_json::Error>)
    ensures
        parsed matches Ok(document) ==> json_document(body@) == Some(document),
        parsed is Err ==> json_document(body@) is None,
{
    serde_json::from_slice::<serde_json::Value>(body)
}

/// Calls `serde_json::Value::get` with a string key. The result is
/// `json_member(value, key)`.
#[verifier::external_body]
pub(crate) fn member<'a>(value: &'a serde_json::Value, key: &str) -> (found: Option<
    &'a serde_json::Value,
>)
    ensures
        found matches Some(inner) ==> json_member(*value, key@) == Some(*inner),
        found is None ==> json_member(*value, key@) is None,
{
    value.get(key)
}

/// `serde_json::Value::as_str` returns `json_text` of the value.
pub assume_specification<'a>[ serde_json::Value::as_str ](value: &'a serde_json::Value) -> (text:
    Option<&'a str>)
    ensures
        text matches Some(t) ==> json_text(*value) == Some(t@),
        text is None ==> json_text(*value) is None,
;

/// `serde_json::Value::as_i64` returns `json_integer` of the value.
pub assume_specification[ serde_json::Value::as_i64 ](value: &serde_json::Value) -> (number: Option<
    i64,
>)
    ensures
        number == json_integer(*value),
;

} // verus!

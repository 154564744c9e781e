//! The JSON documents that body extractors read, through serde_json.
use vstd::prelude::*;

verus! {

#[verifier::external_type_specification]
#[verifier::external_body]
pub struct ExJsonValue(serde_json::Value);

#[verifier::external_type_specification]
#[verifier::external_body]
pub struct ExJsonError(serde_json::Error);

/// The document that the bytes `b` hold, when they are well-formed JSON.
pub uninterp spec fn parsed_json(b: Seq<u8>) -> Option<serde_json::Value>;

/// The member named `key` of the document `v`, when `v` is an object holding it.
pub uninterp spec fn json_member(v: serde_json::Value, key: Seq<char>) -> Option<serde_json::Value>;

/// The text that `v` holds, when `v` is a JSON string.
pub uninterp spec fn json_text(v: serde_json::Value) -> Option<Seq<char>>;

/// The integer that `v` holds, when `v` is a JSON number that fits in a `u64`.
pub uninterp spec fn json_unsigned(v: serde_json::Value) -> Option<u64>;

/// Relies on `serde_json::from_slice::<serde_json::Value>`: it succeeds exactly
/// on well-formed JSON, and the document depends on the bytes alone.
#[verifier::external_body]
pub(crate) fn parse_document(b: &[u8]) -> (r: Result<serde_json::Value, serde_json::Error>)
    ensures
        r is Ok <==> parsed_json(b@) is Some,
        r matches Ok(v) ==> parsed_json(b@) == Some(v),
{
    serde_json::from_slice::<serde_json::Value>(b)
}

/// Relies on `serde_json::Value::get` with a string key: the member of that
/// name of an object, `None` for a missing key or a value that is no object.
#[verifier::external_body]
pub(crate) fn member(v: &serde_json::Value, key: &str) -> (r: Option<serde_json::Value>)
    ensures
        r == json_member(*v, key@),
{
    v.get(key).cloned()
}

/// Relies on `serde_json::Value::as_str`: the text of a JSON string, else `None`.
#[verifier::external_body]
pub(crate) fn as_text(v: &serde_json::Value) -> (r: Option<String>)
    ensures
        r is Some <==> json_text(*v) is Some,
        r matches Some(t) ==> json_text(*v) == Some(t@),
{
    v.as_str().map(|t| t.to_string())
}

/// Relies on `serde_json::Value::as_u64`: a number that is a non-negative
/// integer within `u64`, else `None`.
#[verifier::external_body]
pub(crate) fn as_unsigned(v: &serde_json::Value) -> (r: Option<u64>)
    ensures
        r == json_unsigned(*v),
{
    v.as_u64()
}

} // verus!

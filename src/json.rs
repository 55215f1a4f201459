//! Reading members of JSON payloads, through serde_json's value type.

use vstd::prelude::*;

verus! {

#[verifier::external_type_specification]
#[verifier::external_body]
pub struct ExValue(serde_json::Value);

/// The text of member `key` of `v` when `v` is an object whose member of
/// that name is a JSON string; `None` otherwise.
pub uninterp spec fn json_string_member(v: serde_json::Value, key: Seq<char>) -> Option<Seq<char>>;

/// The number held by member `key` of `v` when `v` is an object whose member
/// of that name is an unsigned integer that fits in 64 bits; `None` otherwise.
pub uninterp spec fn json_u64_member(v: serde_json::Value, key: Seq<char>) -> Option<u64>;

/// Relies on `serde_json::Value::get` with a string key, then
/// `Value::as_str` on the member: the result depends on the value and the key alone.
#[verifier::external_body]
pub(crate) fn string_member(v: &serde_json::Value, key: &str) -> (r: Option<String>)
    ensures
        r.deep_view() == json_string_member(*v, key@),
{
    v.get(key).and_then(serde_json::Value::as_str).map(str::to_owned)
}

/// Relies on `serde_json::Value::get` with a string key, then
/// `Value::as_u64` on the member: the result depends on the value and the key alone.
#[verifier::external_body]
pub(crate) fn u64_member(v: &serde_json::Value, key: &str) -> (r: Option<u64>)
    ensures
        r == json_u64_member(*v, key@),
{
    v.get(key).and_then(serde_json::Value::as_u64)
}

/// Member `key` of an optional payload, as text.
pub open spec fn payload_string(d: Option<serde_json::Value>, key: Seq<char>) -> Option<Seq<char>> {
    match d {
        Some(v) => json_string_member(v, key),
        None => None,
    }
}

/// Member `key` of an optional payload, as an unsigned integer.
pub open spec fn payload_u64(d: Option<serde_json::Value>, key: Seq<char>) -> Option<u64> {
    match d {
        Some(v) => json_u64_member(v, key),
        None => None,
    }
}

} // verus!

//! JSON documents. They are read by `serde_json`; what is said of them
//! here is taken on trust.

use vstd::prelude::*;

verus! {

/// `serde_json::Value`, a JSON document: carried through, never looked into.
#[verifier::external_type_specification]
#[verifier::external_body]
pub struct ExJsonValue(serde_json::Value);

/// `serde_json::Error`, why a text is no JSON: carried through, never
/// looked into.
#[verifier::external_type_specification]
#[verifier::external_body]
pub struct ExJsonError(serde_json::Error);

/// The keys of the members of `value`, where it is an object. A value
/// that is no object has no keys.
pub uninterp spec fn json_keys(value: serde_json::Value) -> Set<Seq<char>>;

/// The members of `value`, where it is an object, that are integers
/// within the unsigned 64 bits, each under its key.
pub uninterp spec fn json_numbers(value: serde_json::Value) -> Map<Seq<char>, u64>;

/// The number under `key` in `value`, where there is one.
pub open spec fn number_under(value: serde_json::Value, key: Seq<char>) -> Option<u64> {
    if json_numbers(value).dom().contains(key) {
        Some(json_numbers(value)[key])
    } else {
        None
    }
}

/// Whether the bytes `content` are one JSON document and nothing else, as
/// `serde_json` reads it.
pub uninterp spec fn parses_as_json(content: Seq<u8>) -> bool;

/// `serde_json::from_slice`, for a value of any shape: the document that
/// `content` holds, or the error where it holds no JSON. Whether the
/// bytes are JSON depends on the bytes alone; the claim is that the call
/// succeeds just where [`parses_as_json`] says so. Nothing is claimed of
/// the document.
#[verifier::external_body]
pub(crate) fn parse_document(content: &[u8]) -> (parsed: Result<
    serde_json::Value,
    serde_json::Error,
>)
    ensures
        parsed is Ok <==> parses_as_json(content@),
{
    serde_json::from_slice(content)
}

/// `serde_json::Value::get` with a string for a key, then
/// `serde_json::Value::as_u64`: the member of the object under `key` as a
/// number. There is none where the value is no object, has no such
/// member, or the member is no integer within the unsigned 64 bits. The
/// claim is that the result is what [`json_numbers`] names.
#[verifier::external_body]
pub(crate) fn number_member(value: &serde_json::Value, key: &str) -> (number: Option<u64>)
    ensures
        number == (if json_numbers(*value).dom().contains(key@) {
            Some(json_numbers(*value)[key@])
        } else {
            None
        }),
{
    value.get(key).and_then(serde_json::Value::as_u64)
}

/// `serde_json::Value::get` with a string for a key: a copy of the member
/// of the object under `key`. There is none where the value is no object
/// or has no such member. The claim is that there is one just where
/// [`json_keys`] names the key; nothing is claimed of the member.
#[verifier::external_body]
pub(crate) fn member(value: &serde_json::Value, key: &str) -> (found: Option<serde_json::Value>)
    ensures
        found is Some <==> json_keys(*value).contains(key@),
{
    value.get(key).cloned()
}

} // verus!

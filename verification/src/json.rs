//! JSON values, as serde_json holds them.
//!
//! Metadata objects, `Part` data, extension parameters and signature
//! headers are free-form JSON that the data model carries unchanged, so they
//! are held as the `serde_json` values they are. The one JSON a client reads
//! into is an error body, through the few accessors below.
use vstd::prelude::*;

verus! {

#[verifier::external_type_specification]
#[verifier::external_body]
pub struct ExJsonValue(serde_json::Value);

#[verifier::external_type_specification]
#[verifier::external_body]
#[verifier::reject_recursive_types(K)]
#[verifier::reject_recursive_types(V)]
pub struct ExJsonMap<K, V>(serde_json::Map<K, V>);

#[verifier::external_type_specification]
#[verifier::external_body]
pub struct ExJsonError(serde_json::Error);

/// An arbitrary JSON value.
pub type JsonValue = serde_json::Value;

/// A JSON object (the `google.protobuf.Struct` of the gRPC binding).
pub type JsonObject = serde_json::Map<String, serde_json::Value>;

/// The JSON value serde_json reads `text` as (what
/// `serde_json::from_str::<serde_json::Value>(text)` gives): `None` when the
/// text is not one JSON value.
pub uninterp spec fn json_text_value(text: Seq<char>) -> Option<JsonValue>;

/// Reads `text` as a JSON value (`serde_json::from_str`). Claimed: the
/// result is `json_text_value(text)`, a function of the text alone.
#[verifier::external_body]
pub(crate) fn parse_json(text: &str) -> (r: Option<JsonValue>)
    ensures
        r == json_text_value(text@),
{
    serde_json::from_str::<serde_json::Value>(text).ok()
}

/// The member `key` of the JSON value `v` (what `Value::get` with a string
/// key returns): `None` for a missing member or a value that is not an
/// object.
pub uninterp spec fn json_member_of(v: JsonValue, key: Seq<char>) -> Option<JsonValue>;

/// The text of the JSON value `v` if it is a string (what `Value::as_str`
/// returns): `None` for any other kind of value.
pub uninterp spec fn json_string_of(v: JsonValue) -> Option<Seq<char>>;

/// The member `key` of a JSON object (`Value::get` with a string key);
/// `None` for a missing member or a value that is not an object. Claimed:
/// the result is `json_member_of(v, key)`, a function of the value and the
/// key alone. What the member holds is not stated: the value is opaque
/// here.
#[verifier::external_body]
pub(crate) fn json_member<'a>(v: &'a JsonValue, key: &str) -> (r: Option<&'a JsonValue>)
    ensures
        match r {
            Some(m) => json_member_of(*v, key@) == Some(*m),
            None => json_member_of(*v, key@) is None,
        },
{
    v.get(key)
}

/// The text of a JSON string (`Value::as_str`); `None` for any other kind
/// of value. Claimed: the result's text is `json_string_of(v)`, a function
/// of the value alone.
#[verifier::external_body]
pub(crate) fn json_string(v: &JsonValue) -> (r: Option<String>)
    ensures
        match r {
            Some(s) => json_string_of(*v) == Some(s@),
            None => json_string_of(*v) is None,
        },
{
    v.as_str().map(String::from)
}

/// The items of the JSON value `v` if it is an array (what
/// `Value::as_array` returns): `None` for any other kind of value.
pub uninterp spec fn json_array_of(v: JsonValue) -> Option<Seq<JsonValue>>;

/// The items of a JSON array (`Value::as_array`); `None` for any other kind
/// of value. Claimed: the items are `json_array_of(v)`, a function of the
/// value alone.
#[verifier::external_body]
pub(crate) fn json_array<'a>(v: &'a JsonValue) -> (r: Option<&'a Vec<JsonValue>>)
    ensures
        match r {
            Some(items) => json_array_of(*v) == Some(items@),
            None => json_array_of(*v) is None,
        },
{
    v.as_array()
}

} // verus!

//! Trusted boundary to `serde_json`: the opaque JSON value type, parsing,
//! serialization, and field access. Every function here is believed on the
//! strength of `serde_json`'s own code; nothing else in the crate is.

use vstd::prelude::*;

verus! {

#[verifier::external_type_specification]
#[verifier::external_body]
pub struct ExValue(serde_json::Value);

/// Whether `serde_json` accepts these bytes as a JSON document. Parsing is
/// a function of the bytes alone, so the outcome can be given a name even
/// though the parsed value itself stays opaque.
pub uninterp spec fn spec_json_ok(bytes: Seq<u8>) -> bool;

/// Relies on `serde_json::from_slice::<Value>`: returns a value exactly when
/// the bytes are a well-formed JSON document.
#[verifier::external_body]
pub fn parse_json(bytes: &Vec<u8>) -> (r: Option<serde_json::Value>)
    ensures
        r is Some <==> spec_json_ok(bytes@),
{
    serde_json::from_slice(bytes.as_slice()).ok()
}

/// Relies on `serde_json::to_vec`: serializes a JSON value to UTF-8 bytes.
/// The serializer reports failure through `Result`; nothing more is assumed
/// of the bytes, since the value is opaque here.
#[verifier::external_body]
pub fn value_to_bytes(v: &serde_json::Value) -> (r: Option<Vec<u8>>)
{
    serde_json::to_vec(v).ok()
}

/// Relies on `serde_json::Value::get`: looks a key up when the value is an
/// object.
#[verifier::external_body]
pub fn get_field<'a>(v: &'a serde_json::Value, key: &str) -> (r: Option<&'a serde_json::Value>)
{
    v.get(key)
}

/// Relies on `serde_json::Value::as_str`: the string slice when the value
/// is a JSON string.
#[verifier::external_body]
pub fn value_as_str(v: &serde_json::Value) -> (r: Option<&str>)
{
    v.as_str()
}

/// Relies on `<serde_json::Value as Clone>::clone`.
#[verifier::external_body]
pub fn clone_value(v: &serde_json::Value) -> (r: serde_json::Value)
{
    v.clone()
}

/// Relies on `serde_json::Value::Null`: the JSON `null` value.
#[verifier::external_body]
pub fn null_value() -> (r: serde_json::Value)
{
    serde_json::Value::Null
}

} // verus!

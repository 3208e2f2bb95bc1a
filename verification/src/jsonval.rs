//! The JSON values this service reads out of cached block bodies. Parsing,
//! field access and rendering are `serde_json`'s; the library names what each
//! call returns and builds its projections on those names.

use vstd::prelude::*;

verus! {

#[verifier::external_type_specification]
#[verifier::external_body]
pub struct ExValue(serde_json::Value);

/// What `serde_json::from_str::<Value>` returns on a text: the parsed value
/// for well-formed JSON, nothing otherwise. Determined by the text alone.
pub uninterp spec fn spec_json_parse(s: Seq<char>) -> Option<serde_json::Value>;

/// What `Value::get` returns under a string key: the member of an object
/// filed under that key, nothing for other values or absent keys.
pub uninterp spec fn spec_json_get(v: serde_json::Value, key: Seq<char>) -> Option<
    serde_json::Value,
>;

/// What `Value::as_array` returns: the elements of an array value in order,
/// nothing for other values.
pub uninterp spec fn spec_json_items(v: serde_json::Value) -> Option<Seq<serde_json::Value>>;

/// What `Value::as_u64` returns: the numeric value of an integer that fits,
/// nothing for other values.
pub uninterp spec fn spec_json_u64(v: serde_json::Value) -> Option<u64>;

/// What `Value::as_str` returns: the characters of a string value, nothing
/// for other values.
pub uninterp spec fn spec_json_str(v: serde_json::Value) -> Option<Seq<char>>;

/// What `serde_json`'s display of a value renders: its compact JSON text,
/// determined by the value alone.
pub uninterp spec fn spec_json_text(v: serde_json::Value) -> Seq<char>;

/// Relies on `serde_json::from_str::<Value>`: accepts exactly the well-formed
/// JSON texts, and parses the same text to the same value.
#[verifier::external_body]
pub fn json_parse(s: &str) -> (r: Option<serde_json::Value>)
    ensures
        r == spec_json_parse(s@),
{
    serde_json::from_str(s).ok()
}

/// Relies on `serde_json::Value::get` with a string index: a member lookup
/// that reads the value alone.
#[verifier::external_body]
pub fn json_get<'a>(v: &'a serde_json::Value, key: &str) -> (r: Option<&'a serde_json::Value>)
    ensures
        match r {
            Some(m) => spec_json_get(*v, key@) == Some(*m),
            None => spec_json_get(*v, key@) is None,
        },
{
    v.get(key)
}

/// Relies on `serde_json::Value::as_array`: exposes the elements of an array
/// value in order.
#[verifier::external_body]
pub fn json_as_array<'a>(v: &'a serde_json::Value) -> (r: Option<&'a Vec<serde_json::Value>>)
    ensures
        match r {
            Some(a) => spec_json_items(*v) == Some(a@),
            None => spec_json_items(*v) is None,
        },
{
    v.as_array()
}

/// Relies on `serde_json::Value::as_u64`: the numeric reading of an integer
/// value.
#[verifier::external_body]
pub fn json_as_u64(v: &serde_json::Value) -> (r: Option<u64>)
    ensures
        r == spec_json_u64(*v),
{
    v.as_u64()
}

/// Relies on `serde_json::Value::as_str`: the characters of a string value.
#[verifier::external_body]
pub fn json_as_str<'a>(v: &'a serde_json::Value) -> (r: Option<&'a str>)
    ensures
        match r {
            Some(s) => spec_json_str(*v) == Some(s@),
            None => spec_json_str(*v) is None,
        },
{
    v.as_str()
}

/// Relies on `serde_json`'s `Display` for `Value`: renders the compact JSON
/// text of the value.
#[verifier::external_body]
pub fn json_to_text(v: &serde_json::Value) -> (r: String)
    ensures
        r@ == spec_json_text(*v),
{
    v.to_string()
}

} // verus!

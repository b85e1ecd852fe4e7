//! Trusted boundary around `serde_json`.
//!
//! Tier schedules arrive as JSON text. Decoding that text is delegated to
//! `serde_json`; every call into it goes through one of the wrappers below,
//! whose contracts name the call's result with an uninterpreted spec function
//! (each result is a function of the arguments alone). The shape checking that
//! turns a decoded document into tier rows is ordinary verified code in
//! `tiers`.

use vstd::prelude::*;

verus! {

#[verifier::external_type_specification]
#[verifier::external_body]
pub struct ExValue(serde_json::Value);

#[verifier::external_type_specification]
#[verifier::external_body]
pub struct ExNumber(serde_json::Number);

/// The JSON document that a piece of text parses to, or `None` where the text
/// is not valid JSON.
pub uninterp spec fn json_of(s: Seq<char>) -> Option<serde_json::Value>;

/// The elements of a JSON array, or `None` where the value is not an array.
pub uninterp spec fn arr_of(v: serde_json::Value) -> Option<Seq<serde_json::Value>>;

/// The value under a key of a JSON object, or `None` where the value is not an
/// object or has no such key.
pub uninterp spec fn field_of(v: serde_json::Value, key: Seq<char>) -> Option<serde_json::Value>;

/// The `i64` a JSON number holds, or `None` where the value is not a number
/// written as an integer that fits in `i64`.
pub uninterp spec fn int_of(v: serde_json::Value) -> Option<i64>;

/// The characters of a JSON string, or `None` where the value is not a string.
pub uninterp spec fn str_of(v: serde_json::Value) -> Option<Seq<char>>;

/// The number a JSON value holds, or `None` where the value is not a number.
pub uninterp spec fn num_of(v: serde_json::Value) -> Option<serde_json::Number>;

/// The decimal text of a JSON number.
pub uninterp spec fn num_text_of(n: serde_json::Number) -> Seq<char>;

/// Relies on `serde_json::from_str::<Value>`: which document a piece of text
/// parses to is a function of the text alone; text that is not valid JSON
/// gives `Err`, mapped to `None` here.
#[verifier::external_body]
pub(crate) fn json_parse(raw: &str) -> (r: Option<serde_json::Value>)
    ensures
        r == json_of(raw@),
{
    serde_json::from_str(raw).ok()
}

/// Relies on `serde_json::Value::as_array` (`Some` exactly on `Value::Array`,
/// handing its elements back) and on `Vec::<Value>::clone`.
#[verifier::external_body]
pub(crate) fn value_as_array(v: &serde_json::Value) -> (r: Option<Vec<serde_json::Value>>)
    ensures
        match r {
            Some(a) => arr_of(*v) == Some(a@),
            None => arr_of(*v) is None,
        },
{
    v.as_array().cloned()
}

/// Relies on `serde_json::Value::get` with a string index (a lookup in the
/// object's map, `None` on every other variant) and on `Value::clone`.
#[verifier::external_body]
pub(crate) fn value_get(v: &serde_json::Value, key: &str) -> (r: Option<serde_json::Value>)
    ensures
        r == field_of(*v, key@),
{
    v.get(key).cloned()
}

/// Relies on `serde_json::Value::as_i64`: `Some` exactly on a number stored as
/// an integer in `i64` range.
#[verifier::external_body]
pub(crate) fn value_as_i64(v: &serde_json::Value) -> (r: Option<i64>)
    ensures
        r == int_of(*v),
{
    v.as_i64()
}

/// Relies on `serde_json::Value::as_str` (`Some` exactly on `Value::String`,
/// handing its characters back) and on `str::to_string`.
#[verifier::external_body]
pub(crate) fn value_as_str(v: &serde_json::Value) -> (r: Option<String>)
    ensures
        match r {
            Some(s) => str_of(*v) == Some(s@),
            None => str_of(*v) is None,
        },
{
    match v.as_str() {
        Some(s) => Some(s.to_string()),
        None => None,
    }
}

/// Relies on `serde_json::Value::as_number` (`Some` exactly on
/// `Value::Number`) and on `Number::clone`.
#[verifier::external_body]
pub(crate) fn value_as_number(v: &serde_json::Value) -> (r: Option<serde_json::Number>)
    ensures
        r == num_of(*v),
{
    v.as_number().cloned()
}

/// Relies on `serde_json::Number`'s `Display`: the decimal rendering of a
/// number is a function of the number alone.
#[verifier::external_body]
pub(crate) fn number_text(n: &serde_json::Number) -> (r: String)
    ensures
        r@ == num_text_of(*n),
{
    n.to_string()
}

} // verus!

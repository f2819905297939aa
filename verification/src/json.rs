//! The JSON value type that carries structured data (observation data,
//! proposal and task arguments, requests and replies of the services and
//! the language models): the reads and writes of `serde_json` the library
//! makes, each behind a wrapper whose result is stated or named.
use vstd::prelude::*;

verus! {

/// `serde_json::Value`, held opaquely.
#[verifier::external_type_specification]
#[verifier::external_body]
pub struct ExJsonValue(serde_json::Value);

/// `Value::clone` (derived) produces an identical value.
pub assume_specification[ <serde_json::Value as Clone>::clone ](v: &serde_json::Value) -> (r: serde_json::Value)
    ensures
        r == *v,
;

/// A copy of an optional JSON value.
pub fn clone_opt_json(v: &Option<serde_json::Value>) -> (r: Option<serde_json::Value>)
    ensures
        r == *v,
{
    match v {
        Some(x) => Some(x.clone()),
        None => None,
    }
}

/// Whether a JSON value is an object, as `serde_json::Value::is_object`
/// reports it.
pub uninterp spec fn json_is_object(v: serde_json::Value) -> bool;

/// Calls `serde_json::Value::is_object`; the result is named by
/// `json_is_object`.
#[verifier::external_body]
pub(crate) fn value_is_object(v: &serde_json::Value) -> (r: bool)
    ensures
        r == json_is_object(*v),
{
    v.is_object()
}

/// The member `key` of a JSON object, as `serde_json::Value::get` with a
/// string key finds it (`None` for a missing key or a value that is no
/// object).
pub uninterp spec fn json_field(v: serde_json::Value, key: Seq<char>) -> Option<serde_json::Value>;

/// Calls `serde_json::Value::get` with a string key and copies the
/// member; the result is named by `json_field`.
#[verifier::external_body]
pub(crate) fn value_field(v: &serde_json::Value, key: &str) -> (r: Option<serde_json::Value>)
    ensures
        r == json_field(*v, key@),
{
    v.get(key).cloned()
}

/// The items of a JSON array, as `serde_json::Value::as_array` gives them
/// (`None` for a value that is no array).
pub uninterp spec fn json_items(v: serde_json::Value) -> Option<Seq<serde_json::Value>>;

/// Calls `serde_json::Value::as_array` and copies the items; the result
/// is named by `json_items`.
#[verifier::external_body]
pub(crate) fn value_items(v: &serde_json::Value) -> (r: Option<Vec<serde_json::Value>>)
    ensures
        match r {
            Some(a) => json_items(*v) == Some(a@),
            None => json_items(*v) is None,
        },
{
    v.as_array().cloned()
}

/// The text of a JSON string, as `serde_json::Value::as_str` gives it
/// (`None` for a value that is no string).
pub uninterp spec fn json_text(v: serde_json::Value) -> Option<Seq<char>>;

/// Calls `serde_json::Value::as_str` and copies the text; the result is
/// named by `json_text`.
#[verifier::external_body]
pub(crate) fn value_text(v: &serde_json::Value) -> (r: Option<String>)
    ensures
        match r {
            Some(s) => json_text(*v) == Some(s@),
            None => json_text(*v) is None,
        },
{
    v.as_str().map(|s| s.to_string())
}

/// The member `key` of a JSON value as `serde_json::Value`'s string
/// index gives it: the member when there is one, `null` otherwise.
pub uninterp spec fn json_member(v: serde_json::Value, key: Seq<char>) -> serde_json::Value;

/// Indexes a JSON value by a string key (`&v[key]`) and copies the
/// result; the result is named by `json_member`, and is the member itself
/// when there is one.
#[verifier::external_body]
pub(crate) fn value_member(v: &serde_json::Value, key: &str) -> (r: serde_json::Value)
    ensures
        r == json_member(*v, key@),
        json_field(*v, key@) matches Some(x) ==> r == x,
{
    v[key].clone()
}

/// The compact JSON text of a value, as `serde_json` writes it.
pub uninterp spec fn json_encoding(v: serde_json::Value) -> Seq<char>;

/// Writes a JSON value as compact text (`Value`'s `Display`, through
/// `to_string`); the text is named by `json_encoding`.
#[verifier::external_body]
pub(crate) fn value_to_text(v: &serde_json::Value) -> (r: String)
    ensures
        r@ == json_encoding(*v),
{
    v.to_string()
}

/// Makes an empty JSON object, `Value::Object(Map::new())`: an object
/// with no member.
#[verifier::external_body]
pub(crate) fn empty_object() -> (r: serde_json::Value)
    ensures
        json_is_object(r),
        forall|k: Seq<char>| json_field(r, k) is None,
{
    serde_json::Value::Object(serde_json::Map::new())
}

/// Makes the JSON string `Value::String(s)`.
#[verifier::external_body]
pub(crate) fn string_value(s: &str) -> (r: serde_json::Value)
    ensures
        json_text(r) == Some(s@),
{
    serde_json::Value::String(s.to_string())
}

/// Makes the JSON array `Value::Array(items)`.
#[verifier::external_body]
pub(crate) fn array_value(items: Vec<serde_json::Value>) -> (r: serde_json::Value)
    ensures
        json_items(r) == Some(items@),
{
    serde_json::Value::Array(items)
}

/// Makes the JSON object with the one member `key: v`.
#[verifier::external_body]
pub(crate) fn object_with(key: &str, v: serde_json::Value) -> (r: serde_json::Value)
    ensures
        json_is_object(r),
        json_field(r, key@) == Some(v),
        forall|k: Seq<char>| k != key@ ==> json_field(r, k) is None,
{
    let mut m = serde_json::Map::new();
    m.insert(key.to_string(), v);
    serde_json::Value::Object(m)
}

/// Adds the member `key: v` to a JSON object through
/// `serde_json::Map::insert`, replacing any member of that name; the
/// other members stay.
#[verifier::external_body]
pub(crate) fn object_insert(obj: serde_json::Value, key: &str, v: serde_json::Value) -> (r: serde_json::Value)
    requires
        json_is_object(obj),
    ensures
        json_is_object(r),
        json_field(r, key@) == Some(v),
        forall|k: Seq<char>| k != key@ ==> json_field(r, k) == json_field(obj, k),
{
    let mut obj = obj;
    if let serde_json::Value::Object(m) = &mut obj {
        m.insert(key.to_string(), v);
    }
    obj
}

/// What `serde_json::from_str::<Value>` makes of a text: the value, or
/// the error's message.
pub uninterp spec fn json_parse(text: Seq<char>) -> Result<serde_json::Value, Seq<char>>;

/// Parses a text as JSON (`serde_json::from_str`); the outcome, with the
/// error's `Display` text, is named by `json_parse`.
#[verifier::external_body]
pub(crate) fn parse_json(text: &str) -> (r: Result<serde_json::Value, String>)
    ensures
        match r {
            Ok(v) => json_parse(text@) == Ok::<serde_json::Value, Seq<char>>(v),
            Err(m) => json_parse(text@) == Err::<serde_json::Value, Seq<char>>(m@),
        },
{
    serde_json::from_str::<serde_json::Value>(text).map_err(|e| e.to_string())
}

/// The number a JSON value holds when it is a non-negative integer that
/// fits in `u64`, as `serde_json::Value::as_u64` gives it.
pub uninterp spec fn json_u64(v: serde_json::Value) -> Option<u64>;

/// Calls `serde_json::Value::as_u64`; the result is named by `json_u64`.
#[verifier::external_body]
pub(crate) fn value_u64(v: &serde_json::Value) -> (r: Option<u64>)
    ensures
        r == json_u64(*v),
{
    v.as_u64()
}

/// Makes the JSON number `n` (`Value::from(n)`), which `as_u64` reads
/// back as `n`.
#[verifier::external_body]
pub(crate) fn number_value(n: u64) -> (r: serde_json::Value)
    ensures
        json_u64(r) == Some(n),
        json_text(r) is None,
{
    serde_json::Value::from(n)
}

/// The boolean a JSON value holds, as `serde_json::Value::as_bool` gives
/// it.
pub uninterp spec fn json_bool(v: serde_json::Value) -> Option<bool>;

/// Calls `serde_json::Value::as_bool`; the result is named by `json_bool`.
#[verifier::external_body]
pub(crate) fn value_bool(v: &serde_json::Value) -> (r: Option<bool>)
    ensures
        r == json_bool(*v),
{
    v.as_bool()
}

/// Makes the JSON boolean `b` (`Value::Bool(b)`), which `as_bool` reads
/// back as `b`.
#[verifier::external_body]
pub(crate) fn bool_value(b: bool) -> (r: serde_json::Value)
    ensures
        json_bool(r) == Some(b),
{
    serde_json::Value::Bool(b)
}

/// Whether a JSON value is `null`, as `serde_json::Value::is_null` tells.
pub uninterp spec fn json_is_null(v: serde_json::Value) -> bool;

/// Makes the JSON `null` (`Value::Null`): null, and no string or number.
#[verifier::external_body]
pub(crate) fn null_value() -> (r: serde_json::Value)
    ensures
        json_is_null(r),
        json_text(r) is None,
        json_u64(r) is None,
{
    serde_json::Value::Null
}

} // verus!

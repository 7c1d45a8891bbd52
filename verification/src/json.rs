use vstd::prelude::*;

use serde_json::Value;

verus! {

#[verifier::external_type_specification]
#[verifier::external_body]
pub struct ExValue(Value);

#[verifier::external_type_specification]
#[verifier::external_body]
pub struct ExJsonError(serde_json::Error);

/// A JSON document as a mathematical value. A number the provider's crate
/// hands out as an `i64` is `IntNum`; any other number — a float, or an
/// integer beyond the `i64` range — is `OtherNum`, which the decoding treats
/// like an absent value.
pub enum Json {
    Null,
    Bool(bool),
    IntNum(i64),
    OtherNum,
    Str(Seq<char>),
    Arr(Seq<Json>),
    Obj(Map<Seq<char>, Json>),
}

/// The document a `serde_json::Value` holds.
pub uninterp spec fn json_of(v: Value) -> Json;

/// The document that parsing a text yields, where parsing succeeds: a
/// function of the text alone.
pub uninterp spec fn spec_json_parsed(s: Seq<char>) -> Json;

/// Whether a text parses as a JSON document at all: a function of the text
/// alone.
pub uninterp spec fn spec_json_parses(s: Seq<char>) -> bool;

/// Relies on `serde_json::from_str::<Value>`: parses a JSON document.
/// Whether parsing succeeds, and what it yields, depend on the text alone.
#[verifier::external_body]
pub(crate) fn parse_json(s: &str) -> (r: Result<Value, serde_json::Error>)
    ensures
        r is Ok <==> spec_json_parses(s@),
        r matches Ok(v) ==> json_of(v) == spec_json_parsed(s@),
{
    serde_json::from_str::<Value>(s)
}

/// Relies on `serde_json::Value::get` with a string index: on an object it
/// looks the key up, on anything else it yields nothing.
#[verifier::external_body]
pub(crate) fn json_get<'a>(v: &'a Value, key: &str) -> (r: Option<&'a Value>)
    ensures
        match json_of(*v) {
            Json::Obj(m) => match r {
                Some(x) => m.contains_key(key@) && json_of(*x) == m[key@],
                None => !m.contains_key(key@),
            },
            _ => r is None,
        },
{
    v.get(key)
}

/// Relies on `serde_json::Value::as_str`: yields the string a string value
/// holds and nothing otherwise.
#[verifier::external_body]
pub(crate) fn json_as_str<'a>(v: &'a Value) -> (r: Option<&'a str>)
    ensures
        match r {
            Some(s) => json_of(*v) == Json::Str(s@),
            None => !(json_of(*v) is Str),
        },
{
    v.as_str()
}

/// Relies on `serde_json::Value::as_i64`: yields a number exactly when it is
/// an integer in the `i64` range.
#[verifier::external_body]
pub(crate) fn json_as_i64(v: &Value) -> (r: Option<i64>)
    ensures
        match r {
            Some(n) => json_of(*v) == Json::IntNum(n),
            None => !(json_of(*v) is IntNum),
        },
{
    v.as_i64()
}

/// Relies on `serde_json::Value::as_array`: yields the elements of an array
/// value and nothing otherwise.
#[verifier::external_body]
pub(crate) fn json_as_array<'a>(v: &'a Value) -> (r: Option<&'a Vec<Value>>)
    ensures
        match r {
            Some(arr) => json_of(*v) == Json::Arr(arr@.map_values(|x: Value| json_of(x))),
            None => !(json_of(*v) is Arr),
        },
{
    v.as_array()
}

} // verus!

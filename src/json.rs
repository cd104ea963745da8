//! The JSON documents that log entries carry, as serde_json represents them.
//!
//! A `serde_json::Value` is opaque here: what the ingestion logic reads of it
//! is named by the spec functions below, and every operation on it goes through
//! a small trusted item that states what serde_json does.
use vstd::prelude::*;

verus! {

#[verifier::external_type_specification]
#[verifier::external_body]
pub struct ExJsonValue(serde_json::Value);

#[verifier::external_type_specification]
#[verifier::external_body]
#[verifier::reject_recursive_types(K)]
#[verifier::reject_recursive_types(V)]
pub struct ExJsonMap<K, V>(serde_json::Map<K, V>);

#[verifier::external_type_specification]
#[verifier::external_body]
pub struct ExJsonError(serde_json::Error);

/// The members of a JSON object map, by key.
pub uninterp spec fn entries(m: serde_json::Map<String, serde_json::Value>) -> Map<
    Seq<char>,
    serde_json::Value,
>;

/// The members of a JSON value that is an object; `None` for every other kind of value.
pub uninterp spec fn members(v: serde_json::Value) -> Option<Map<Seq<char>, serde_json::Value>>;

/// The text of a JSON value that is a string; `None` for every other kind of value.
pub uninterp spec fn text_of(v: serde_json::Value) -> Option<Seq<char>>;

/// The compact JSON text that serde_json writes for a value; `None` where it reports an error.
pub uninterp spec fn json_text(v: serde_json::Value) -> Option<Seq<char>>;

/// Relies on `serde_json::Value::as_object`: the map of an `Object`, `None` for the other variants.
pub assume_specification[ serde_json::Value::as_object ](v: &serde_json::Value) -> (r: Option<
    &serde_json::Map<String, serde_json::Value>,
>)
    ensures
        match r {
            Some(m) => members(*v) == Some(entries(*m)),
            None => members(*v) is None,
        },
;

/// Relies on `serde_json::Value::as_str`: the text of a `String`, `None` for the other variants.
pub assume_specification[ serde_json::Value::as_str ](v: &serde_json::Value) -> (r: Option<&str>)
    ensures
        match r {
            Some(s) => text_of(*v) == Some(s@),
            None => text_of(*v) is None,
        },
;

/// Relies on matching the `serde_json::Value::Object` variant: takes the map out of an object
/// and hands any other value back unchanged.
#[verifier::external_body]
pub(crate) fn into_object(v: serde_json::Value) -> (r: Result<
    serde_json::Map<String, serde_json::Value>,
    serde_json::Value,
>)
    ensures
        match r {
            Ok(m) => members(v) == Some(entries(m)),
            Err(w) => w == v && members(v) is None,
        },
{
    match v {
        serde_json::Value::Object(m) => Ok(m),
        other => Err(other),
    }
}

/// Relies on the `serde_json::Value::Object` variant: an object value holding the given map.
#[verifier::external_body]
pub(crate) fn object_value(m: serde_json::Map<String, serde_json::Value>) -> (r: serde_json::Value)
    ensures
        members(r) == Some(entries(m)),
        text_of(r) is None,
{
    serde_json::Value::Object(m)
}

/// Relies on the `serde_json::Value::String` variant: a string value holding the given text.
#[verifier::external_body]
pub(crate) fn string_value(s: String) -> (r: serde_json::Value)
    ensures
        text_of(r) == Some(s@),
        members(r) is None,
{
    serde_json::Value::String(s)
}

/// Relies on `serde_json::Map::contains_key`: whether the map holds a member under `k`.
#[verifier::external_body]
pub(crate) fn has_member(m: &serde_json::Map<String, serde_json::Value>, k: &str) -> (r: bool)
    ensures
        r == entries(*m).contains_key(k@),
{
    m.contains_key(k)
}

/// Relies on `serde_json::Map::get`: the member under `k`, if there is one.
#[verifier::external_body]
pub(crate) fn member<'a>(m: &'a serde_json::Map<String, serde_json::Value>, k: &str) -> (r: Option<
    &'a serde_json::Value,
>)
    ensures
        match r {
            Some(v) => entries(*m).contains_key(k@) && entries(*m)[k@] == *v,
            None => !entries(*m).contains_key(k@),
        },
{
    m.get(k)
}

/// Relies on `serde_json::Map::insert`: afterwards `k` maps to `v`, and every other key is kept.
#[verifier::external_body]
pub(crate) fn insert_member(
    m: &mut serde_json::Map<String, serde_json::Value>,
    k: String,
    v: serde_json::Value,
)
    ensures
        entries(*final(m)) == entries(*old(m)).insert(k@, v),
{
    m.insert(k, v);
}

/// Relies on `serde_json::to_string`: the compact JSON text of a value, or the error it reports.
#[verifier::external_body]
pub(crate) fn to_json_text(v: &serde_json::Value) -> (r: Result<String, serde_json::Error>)
    ensures
        match r {
            Ok(s) => json_text(*v) == Some(s@),
            Err(_) => json_text(*v) is None,
        },
{
    serde_json::to_string(v)
}

} // verus!

//! The JSON values exchanged with the service, built and read through serde_json.

use std::collections::HashMap;
use serde_json::Error as JsonError;
use vstd::prelude::*;

verus! {

#[verifier::external_type_specification]
#[verifier::external_body]
pub struct ExJsonValue(serde_json::Value);

#[verifier::external_type_specification]
#[verifier::external_body]
#[verifier::reject_recursive_types(K)]
#[verifier::reject_recursive_types(V)]
pub struct ExJsonMap<K, V>(serde_json::Map<K, V>);

#[verifier::external_type_specification]
#[verifier::external_body]
pub struct ExJsonError(JsonError);

/// A JSON object, as serde_json holds it.
pub type JsonObject = serde_json::Map<String, serde_json::Value>;

/// The keys that a JSON object holds.
pub uninterp spec fn object_keys(m: serde_json::Map<String, serde_json::Value>) -> Set<Seq<char>>;

/// The entries that a JSON object holds, by key.
pub uninterp spec fn object_entries(m: serde_json::Map<String, serde_json::Value>) -> Map<
    Seq<char>,
    serde_json::Value,
>;

/// Whether `s` is a JSON document that serde_json accepts: complete, and
/// nested no deeper than its recursion limit.
pub uninterp spec fn json_parses(s: Seq<char>) -> bool;

/// The JSON value that serde_json reads from `s`.
pub uninterp spec fn parsed_json(s: Seq<char>) -> serde_json::Value;

/// The JSON text that serde_json writes for an object with these entries.
pub uninterp spec fn json_text(entries: Map<Seq<char>, serde_json::Value>) -> Seq<char>;

/// The JSON string holding `s`.
pub uninterp spec fn json_string(s: Seq<char>) -> serde_json::Value;

/// The JSON boolean `b`.
pub uninterp spec fn json_bool(b: bool) -> serde_json::Value;

/// The JSON array of `items`, in order.
pub uninterp spec fn json_array(items: Seq<serde_json::Value>) -> serde_json::Value;

/// The JSON object with these entries.
pub uninterp spec fn json_object(entries: Map<Seq<char>, serde_json::Value>) -> serde_json::Value;

/// The JSON object made of a map of values.
pub uninterp spec fn json_data(d: Map<String, serde_json::Value>) -> serde_json::Value;

/// The JSON object made of a map of strings.
pub uninterp spec fn json_string_map(h: Map<String, String>) -> serde_json::Value;

/// The entries of an empty object.
pub open spec fn no_entries() -> Map<Seq<char>, serde_json::Value> {
    Map::empty()
}

/// Relies on serde_json::Map::new: a map without entries.
#[verifier::external_body]
pub(crate) fn empty_object() -> (r: JsonObject)
    ensures
        object_keys(r) == Set::<Seq<char>>::empty(),
        object_entries(r) == no_entries(),
{
    serde_json::Map::new()
}

/// Relies on serde_json::Map::insert: the key is present afterwards with the
/// given value, and no other entry is added, removed or changed.
#[verifier::external_body]
pub(crate) fn object_insert(m: &mut JsonObject, key: String, value: serde_json::Value)
    ensures
        object_keys(*final(m)) == object_keys(*old(m)).insert(key@),
        object_entries(*final(m)) == object_entries(*old(m)).insert(key@, value),
{
    m.insert(key, value);
}

/// Relies on serde_json::Value::String: the JSON string holding `s`.
#[verifier::external_body]
pub(crate) fn string_value(s: String) -> (r: serde_json::Value)
    ensures
        r == json_string(s@),
{
    serde_json::Value::String(s)
}

/// Relies on serde_json::Value::Bool: the JSON boolean `b`.
#[verifier::external_body]
pub(crate) fn bool_value(b: bool) -> (r: serde_json::Value)
    ensures
        r == json_bool(b),
{
    serde_json::Value::Bool(b)
}

/// Relies on serde_json::Value::Array: the JSON array of `items`, in order.
#[verifier::external_body]
pub(crate) fn array_value(items: Vec<serde_json::Value>) -> (r: serde_json::Value)
    ensures
        r == json_array(items@),
{
    serde_json::Value::Array(items)
}

/// Relies on serde_json::Value::Object: the JSON object `m`.
#[verifier::external_body]
pub(crate) fn object_value(m: JsonObject) -> (r: serde_json::Value)
    ensures
        r == json_object(object_entries(m)),
{
    serde_json::Value::Object(m)
}

/// Relies on serde_json's `FromIterator<(K, V)>` for Value: the JSON object
/// with the entries of `d`.
#[verifier::external_body]
pub(crate) fn map_value(d: &HashMap<String, serde_json::Value>) -> (r: serde_json::Value)
    ensures
        r == json_data(d@),
{
    d.clone().into_iter().collect()
}

/// Relies on serde_json's `FromIterator<(K, V)>` for Value: the JSON object
/// whose values are the strings of `h`.
#[verifier::external_body]
pub(crate) fn string_map_value(h: &HashMap<String, String>) -> (r: serde_json::Value)
    ensures
        r == json_string_map(h@),
{
    h.clone().into_iter().collect()
}

/// Relies on serde_json::to_string: writing an object with string keys into
/// a `Vec` cannot fail, and the text depends on the entries alone.
#[verifier::external_body]
pub(crate) fn object_text(m: &JsonObject) -> (r: Result<String, JsonError>)
    ensures
        r is Ok,
        r matches Ok(t) ==> t@ == json_text(object_entries(*m)),
{
    serde_json::to_string(m)
}

/// Relies on serde_json::from_str: it succeeds exactly on the documents it
/// accepts, with the value it reads.
#[verifier::external_body]
pub(crate) fn parse_value(s: &str) -> (r: Result<serde_json::Value, JsonError>)
    ensures
        r is Ok <==> json_parses(s@),
        r matches Ok(v) ==> v == parsed_json(s@),
{
    serde_json::from_str(s)
}

/// The description that serde_json gives of a failure.
pub uninterp spec fn json_error_description(e: JsonError) -> Seq<char>;

/// Relies on serde_json::Error's Display: a description of the failure,
/// read from the error itself.
#[verifier::external_body]
pub(crate) fn json_error_text(e: &JsonError) -> (r: String)
    ensures
        r@ == json_error_description(*e),
{
    e.to_string()
}

} // verus!

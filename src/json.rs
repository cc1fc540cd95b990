//! The parts of `serde_json` that the bridge relies on. JSON values are
//! carried through opaquely; a JSON object is modelled by the map of its
//! entries.
use vstd::prelude::*;

verus! {

#[verifier::external_type_specification]
#[verifier::external_body]
pub struct ExJsonValue(serde_json::Value);

#[verifier::external_type_specification]
#[verifier::external_body]
#[verifier::reject_recursive_types(K)]
#[verifier::reject_recursive_types(V)]
pub struct ExJsonMap<K, V>(serde_json::Map<K, V>);

#[verifier::external_type_specification]
#[verifier::external_body]
pub struct ExJsonError(serde_json::Error);

/// A JSON object.
pub type JsonObject = serde_json::Map<String, serde_json::Value>;

/// The entries of a JSON object, keyed by their names.
pub uninterp spec fn object_entries(m: JsonObject) -> Map<Seq<char>, serde_json::Value>;

/// The JSON string whose text is `s`.
pub uninterp spec fn json_string(s: Seq<char>) -> serde_json::Value;

/// The JSON value that the text `s` denotes, or `None` where `s` is not
/// well-formed JSON.
pub uninterp spec fn json_parse(s: Seq<char>) -> Option<serde_json::Value>;

/// Relies on `serde_json::Map::new`: the new object has no entries.
#[verifier::external_body]
pub(crate) fn new_object() -> (r: JsonObject)
    ensures
        object_entries(r).dom().is_empty(),
{
    serde_json::Map::new()
}

/// Relies on `serde_json::Map::get` (and `Value::clone`): a copy of the entry
/// under `key`, if there is one.
#[verifier::external_body]
pub(crate) fn object_get(m: &JsonObject, key: &str) -> (r: Option<serde_json::Value>)
    ensures
        r is Some <==> object_entries(*m).contains_key(key@),
        r is Some ==> r->Some_0 == object_entries(*m)[key@],
{
    m.get(key).cloned()
}

/// Relies on `serde_json::Map::insert`: the entry under `key` is set to
/// `value`, and the others stay.
#[verifier::external_body]
pub(crate) fn object_insert(m: &mut JsonObject, key: String, value: serde_json::Value)
    ensures
        object_entries(*final(m)) == object_entries(*old(m)).insert(key@, value),
{
    m.insert(key, value);
}

/// Relies on `impl From<String> for serde_json::Value`, which makes a JSON
/// string of its argument.
#[verifier::external_body]
pub(crate) fn string_value(s: String) -> (r: serde_json::Value)
    ensures
        r == json_string(s@),
{
    serde_json::Value::from(s)
}

/// Relies on `serde_json::from_str` at type `Value`: it succeeds exactly on
/// well-formed JSON text, and its result depends on the text alone.
#[verifier::external_body]
pub(crate) fn parse_value(s: &str) -> (r: Result<serde_json::Value, serde_json::Error>)
    ensures
        r is Ok <==> json_parse(s@) is Some,
        r is Ok ==> json_parse(s@) == Some(r->Ok_0),
{
    serde_json::from_str(s)
}

} // verus!

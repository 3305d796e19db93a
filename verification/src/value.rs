//! The JSON value model.
//!
//! Values and JSON objects are those of `serde_json`.  The engine never looks
//! inside a value: it moves values from a request into an argument list and
//! from a procedure's answer into a response.  A JSON object is read through
//! the two operations below, whose contracts are taken on trust.

use vstd::prelude::*;

use serde_json::Value;

verus! {

/// `serde_json::Value`, carried through as an opaque value.
#[verifier::external_type_specification]
#[verifier::external_body]
pub struct ExValue(serde_json::Value);

/// `serde_json::Map`, the JSON object type.
#[verifier::external_type_specification]
#[verifier::external_body]
#[verifier::reject_recursive_types(K)]
#[verifier::reject_recursive_types(V)]
pub struct ExJsonMap<K, V>(serde_json::Map<K, V>);

/// A JSON object: member names to values.
pub type JsonMap = serde_json::Map<String, Value>;

/// The members of a JSON object, each name as its sequence of characters.
pub uninterp spec fn map_entries(m: serde_json::Map<String, Value>) -> Map<Seq<char>, Value>;

/// Trusted: `serde_json::Map::remove`.  The member named `key` leaves the
/// object and is returned; every other member stays as it was.  Where the
/// object has no such member it is left unchanged and nothing is returned.
#[verifier::external_body]
pub(crate) fn map_remove(m: &mut JsonMap, key: &str) -> (removed: Option<Value>)
    ensures
        map_entries(*final(m)) == map_entries(*old(m)).remove(key@),
        removed == (if map_entries(*old(m)).contains_key(key@) {
            Some(map_entries(*old(m))[key@])
        } else {
            None
        }),
{
    m.remove(key)
}

/// Trusted: the first item of `serde_json::Map::keys`, cloned.  An object
/// with at least one member yields the name of one of them (which one depends
/// on how the object orders its members); only an object without members
/// yields nothing.
#[verifier::external_body]
pub(crate) fn map_first_key(m: &JsonMap) -> (key: Option<String>)
    ensures
        key matches Some(k) ==> map_entries(*m).contains_key(k@),
        key is None ==> forall|k: Seq<char>| !map_entries(*m).contains_key(k),
{
    m.keys().next().cloned()
}

} // verus!

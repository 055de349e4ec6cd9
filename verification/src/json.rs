//! The one place the library touches a JSON serializer.
//!
//! Commands for the worker and the configuration file are two-entry JSON
//! objects.  Escaping arbitrary strings is the serializer's business, so the
//! result is named rather than spelled out: [`json_obj2_of`] stands for the
//! serialized object, and the contracts of everything built on it speak of
//! that name.

use vstd::prelude::*;

verus! {

/// The serialization of the JSON object with the two string entries
/// `k1: v1` and `k2: v2`.
pub uninterp spec fn json_obj2_of(k1: Seq<char>, v1: Seq<char>, k2: Seq<char>, v2: Seq<char>) -> Seq<
    char,
>;

/// Relies on serde_json's `Value::to_string`: serializing an object built
/// from the given keys and values.  The backing map is ordered and the
/// serializer deterministic, so the output depends on the arguments alone.
#[verifier::external_body]
pub(crate) fn json_object_2(k1: &str, v1: &str, k2: &str, v2: &str) -> (r: String)
    ensures
        r@ == json_obj2_of(k1@, v1@, k2@, v2@),
{
    let mut map = serde_json::Map::new();
    map.insert(k1.to_string(), serde_json::Value::String(v1.to_string()));
    map.insert(k2.to_string(), serde_json::Value::String(v2.to_string()));
    serde_json::Value::Object(map).to_string()
}

} // verus!

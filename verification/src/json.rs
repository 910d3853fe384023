//! JSON encoding of the arguments handed to the account-creation function
//! call, done by `serde_json`.

use vstd::prelude::*;

verus! {

/// The compact JSON encoding of the object `{k1: v1, k2: v2}` with string
/// values, as `serde_json` renders it. The encoding depends on the keys and
/// values alone.
pub uninterp spec fn json_object_two_of(
    k1: Seq<char>,
    v1: Seq<char>,
    k2: Seq<char>,
    v2: Seq<char>,
) -> Seq<u8>;

/// Relies on `serde_json::Value::to_string` (via `Display`): the compact JSON
/// encoding of a two-entry object of string values, a function of the keys
/// and values alone.
#[verifier::external_body]
pub(crate) fn json_object_two(k1: &str, v1: &str, k2: &str, v2: &str) -> (r: Vec<u8>)
    ensures
        r@ == json_object_two_of(k1@, v1@, k2@, v2@),
{
    let mut object = serde_json::Map::new();
    object.insert(k1.to_string(), serde_json::Value::String(v1.to_string()));
    object.insert(k2.to_string(), serde_json::Value::String(v2.to_string()));
    serde_json::Value::Object(object).to_string().into_bytes()
}

} // verus!

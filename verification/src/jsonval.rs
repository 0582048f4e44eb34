//! Declarations and wrappers for the JSON values the trace tree is
//! rendered into.  The values themselves are opaque here; building and
//! serializing them is delegated to serde_json.

use vstd::prelude::*;

verus! {

#[verifier::external_type_specification]
#[verifier::external_body]
pub struct ExJsonValue(serde_json::Value);

#[verifier::external_type_specification]
#[verifier::external_body]
#[verifier::reject_recursive_types(K)]
#[verifier::reject_recursive_types(V)]
pub struct ExJsonMap<K, V>(serde_json::Map<K, V>);

/// Relies on serde_json::Value::String: wraps a string as a JSON string.
#[verifier::external_body]
pub(crate) fn json_string(s: String) -> serde_json::Value {
    serde_json::Value::String(s)
}

/// Relies on serde_json::Value::Bool: wraps a boolean as a JSON boolean.
#[verifier::external_body]
pub(crate) fn json_bool(b: bool) -> serde_json::Value {
    serde_json::Value::Bool(b)
}

/// Relies on serde_json::Value::Null: the JSON null value.
#[verifier::external_body]
pub(crate) fn json_null() -> serde_json::Value {
    serde_json::Value::Null
}

/// Relies on serde_json::Value::Array: wraps values as a JSON array.
#[verifier::external_body]
pub(crate) fn json_array(items: Vec<serde_json::Value>) -> serde_json::Value {
    serde_json::Value::Array(items)
}

/// Relies on serde_json::Map::new: an empty JSON object map.
#[verifier::external_body]
pub(crate) fn json_map_new() -> serde_json::Map<String, serde_json::Value> {
    serde_json::Map::new()
}

/// Relies on serde_json::Map::insert: binds a key in a JSON object map.
#[verifier::external_body]
pub(crate) fn json_map_insert(
    m: &mut serde_json::Map<String, serde_json::Value>,
    k: String,
    v: serde_json::Value,
) {
    m.insert(k, v);
}

/// Relies on serde_json::Value::Object: wraps a map as a JSON object.
#[verifier::external_body]
pub(crate) fn json_object(m: serde_json::Map<String, serde_json::Value>) -> serde_json::Value {
    serde_json::Value::Object(m)
}

/// Relies on serde_json::to_string_pretty: renders a JSON value; a
/// serialization error yields an empty string (it cannot occur for
/// `serde_json::Value` inputs, whose object keys are always strings).
#[verifier::external_body]
pub(crate) fn json_to_string_pretty(v: &serde_json::Value) -> String {
    match serde_json::to_string_pretty(v) {
        Ok(s) => s,
        Err(_) => String::new(),
    }
}

} // verus!

//! JSON values that callers hand to the API and that the library carries
//! through to the request unchanged.

use vstd::prelude::*;

verus! {

/// A JSON value of serde_json; opaque to the library.
#[verifier::external_type_specification]
#[verifier::external_body]
pub struct ExJsonValue(serde_json::Value);

/// A JSON object of serde_json; opaque to the library.
#[verifier::external_type_specification]
#[verifier::external_body]
#[verifier::reject_recursive_types(K)]
#[verifier::reject_recursive_types(V)]
pub struct ExJsonMap<K, V>(serde_json::Map<K, V>);

/// A JSON object with string keys, as the API takes it for free-form data.
pub type JsonObject = serde_json::Map<String, serde_json::Value>;

} // verus!

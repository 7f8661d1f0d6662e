//! The JSON value type of `serde_json`, carried through unchanged.
use vstd::prelude::*;

verus! {

/// `serde_json::Value`: an arbitrary JSON value. The library never looks
/// inside one; it only moves values from the caller's input to the request
/// and from the provider's response to the caller.
#[verifier::external_type_specification]
#[verifier::external_body]
pub struct ExJsonValue(serde_json::Value);

} // verus!

//! JSON values that the model adapters carry through without reading them.
use vstd::prelude::*;

verus! {

/// `serde_json::Value`, carried through unread (tool definitions, usage
/// figures, error objects).
#[verifier::external_type_specification]
#[verifier::external_body]
pub struct ExJsonValue(serde_json::Value);

} // verus!

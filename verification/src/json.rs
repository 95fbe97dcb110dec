//! JSON documents that requests and records carry and that the library
//! passes on without reading them.
use vstd::prelude::*;

verus! {

/// `serde_json::Value`, carried through opaquely.
#[verifier::external_type_specification]
#[verifier::external_body]
pub struct ExJsonValue(serde_json::Value);

} // verus!

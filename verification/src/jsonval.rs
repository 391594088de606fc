//! Declaration of `serde_json::Value`, the JSON value type that metadata
//! maps carry.  The library treats such values as opaque: it stores and
//! hands them through, and only the trusted serializer in the header
//! module looks inside.

use vstd::prelude::*;

verus! {

/// `serde_json::Value`, declared so that it can stand in fields and
/// signatures.  Nothing about its contents is visible to the verifier.
#[verifier::external_type_specification]
#[verifier::external_body]
pub struct ExJsonValue(serde_json::Value);

} // verus!

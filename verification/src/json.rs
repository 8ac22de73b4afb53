//! Job payloads: arbitrary JSON that the library carries but never reads.

use vstd::prelude::*;

verus! {

/// `serde_json::Value`, the payload of a job, carried through unchanged.
#[verifier::external_type_specification]
#[verifier::external_body]
pub struct ExJsonValue(serde_json::Value);

} // verus!

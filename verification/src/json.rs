//! Raw JSON payloads carried through the client untouched.

use vstd::prelude::*;

verus! {

/// Relies on `serde_json::Value` as an opaque carrier: markup fields of
/// messages hold arbitrary JSON that the client never inspects, only
/// stores and hands back.
#[verifier::external_type_specification]
#[verifier::external_body]
pub struct ExValue(serde_json::Value);

} // verus!

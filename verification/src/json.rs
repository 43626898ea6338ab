//! Declaration of the JSON value type that task arguments, task results and
//! channel messages carry. The bridge never looks inside such a value; it
//! only moves values between the host and the guest.

use vstd::prelude::*;

verus! {

/// Relies on serde_json::Value being an ordinary owned datatype; the bridge
/// carries values of it through unchanged and never inspects them.
#[verifier::external_type_specification]
#[verifier::external_body]
pub struct ExJsonValue(serde_json::Value);

} // verus!

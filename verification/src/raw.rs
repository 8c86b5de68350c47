//! Opaque JSON payloads carried through envelopes.
//!
//! Tool-call results, full interaction histories and parameter schemas are
//! arbitrary JSON documents produced and consumed by outside components.
//! The envelope model carries them through unread as `serde_json::Value`.

use vstd::prelude::*;

verus! {

/// Declares `serde_json::Value` so that envelopes can hold such a payload.
/// The value is opaque to the model: nothing here reads inside it.
#[verifier::external_type_specification]
#[verifier::external_body]
pub struct ExValue(serde_json::Value);

/// Relies on `serde_json::Value::clone`: cloning a JSON document yields an
/// equal document.
pub assume_specification[ <serde_json::Value as Clone>::clone ](
    v: &serde_json::Value,
) -> (r: serde_json::Value)
    ensures
        r == *v,
;

} // verus!

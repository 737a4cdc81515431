//! The payload that tells the frontend which plugin's UI changed.

use vstd::prelude::*;

verus! {

/// The compact JSON text of the object whose one member, `plugin`, is the
/// string `plugin_id`.
pub uninterp spec fn plugin_payload_json(plugin_id: Seq<char>) -> Seq<char>;

/// Calls `to_string` on the `serde_json::Value` object `{"plugin": plugin_id}`.
/// The value's `Display` writes compact JSON into a string, which cannot
/// fail; the text depends on `plugin_id` alone, and the contract gives it its
/// name without saying more of it.
#[verifier::external_body]
pub(crate) fn ui_update_payload(plugin_id: &str) -> (payload: String)
    ensures
        payload@ == plugin_payload_json(plugin_id@),
{
    let mut object = serde_json::Map::new();
    object.insert("plugin".to_string(), serde_json::Value::String(plugin_id.to_string()));
    serde_json::Value::Object(object).to_string()
}

} // verus!

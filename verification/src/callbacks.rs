//! What the host answers when a plugin calls back into it. The host owns the
//! pointers on both sides of such a call; the answers themselves are computed
//! here, from text to text.

use vstd::prelude::*;
use vstd::string::*;
use crate::metadata::optional_text;
use crate::text::{crosses_boundary, fits_c_string};

verus! {

/// The configuration value reported for `key`.
pub open spec fn app_config_text(key: Seq<char>) -> Seq<char> {
    "config_value_for_"@ + key
}

/// Answers a plugin's request for the configuration value of `key`: the value,
/// or `None` when it cannot be handed back as a null-terminated string.
pub fn app_config_value(key: &str) -> (value: Option<String>)
    ensures
        match value {
            Some(v) => v@ == app_config_text(key@) && crosses_boundary(v@),
            None => !crosses_boundary(app_config_text(key@)),
        },
{
    let mut value = String::from_str("config_value_for_");
    value.append(key);
    if fits_c_string(value.as_str()) {
        Some(value)
    } else {
        None
    }
}

/// What a plugin gets back from its call to another plugin, whose
/// `handle_message` returned `status` and left `text`: the text where the
/// status is zero and the text can be handed back as a null-terminated
/// string, and nothing otherwise.
pub open spec fn relayed_reply(status: i32, text: Option<Seq<char>>) -> Option<Seq<char>> {
    if status == 0 && text is Some && crosses_boundary(text->0) {
        text
    } else {
        None
    }
}

/// Decides what a plugin gets back from its call to another plugin, whose
/// `handle_message` returned `status` and left `text`.
pub fn other_plugin_reply(status: i32, text: Option<String>) -> (reply: Option<String>)
    ensures
        optional_text(reply) == relayed_reply(status, optional_text(text)),
{
    match text {
        Some(response) => {
            if status == 0 && fits_c_string(response.as_str()) {
                Some(response)
            } else {
                None
            }
        },
        None => None,
    }
}

} // verus!

//! The Settings Toggle: reads the flat settings resource, flips the
//! boolean field `show_current_game`, and writes only that field back.
//! The two decision points of the sequence stand here as verified
//! functions over the status code and body text of each response; the
//! transport performs the requests and hands those in.

use vstd::prelude::*;
use crate::errors::ToggleError;
use crate::json::{json_bool_field, top_level_bool_field};

verus! {

/// The settings resource.
pub open spec fn spec_settings_url() -> Seq<char> {
    "https://discord.com/api/v9/users/@me/settings"@
}

/// The URL that both the GET and the PATCH of the settings toggle address.
pub fn settings_url() -> (r: String)
    ensures
        r@ == spec_settings_url(),
{
    "https://discord.com/api/v9/users/@me/settings".to_owned()
}

/// What the GET response decides: the value to write when the response is
/// a 200 whose body holds a boolean `show_current_game`, and the error
/// otherwise.  No PATCH follows an `Err`.
pub open spec fn spec_settings_get_step(status: u16, body: Seq<char>) -> Result<
    bool,
    ToggleError,
> {
    if status != 200 {
        Err(ToggleError::RemoteStatus(status))
    } else {
        match json_bool_field(body, "show_current_game"@) {
            None => Err(ToggleError::MalformedResponse),
            Some(current) => Ok(!current),
        }
    }
}

/// Interprets the GET response of the settings toggle.  On success the
/// result is the negation of the current `show_current_game`: the value
/// the PATCH is to write.
pub fn settings_get_step(status: u16, body: &str) -> (r: Result<bool, ToggleError>)
    ensures
        r == spec_settings_get_step(status, body@),
{
    if status != 200 {
        Err(ToggleError::RemoteStatus(status))
    } else {
        match top_level_bool_field(body, "show_current_game") {
            None => Err(ToggleError::MalformedResponse),
            Some(current) => Ok(!current),
        }
    }
}

/// The PATCH body that requests `show_current_game = value` and nothing
/// else, so that no other field of the document is overwritten.
pub open spec fn spec_settings_patch_body(value: bool) -> Seq<char> {
    if value {
        "{\"show_current_game\":true}"@
    } else {
        "{\"show_current_game\":false}"@
    }
}

/// Builds the PATCH body of the settings toggle.
pub fn settings_patch_body(value: bool) -> (r: String)
    ensures
        r@ == spec_settings_patch_body(value),
{
    if value {
        "{\"show_current_game\":true}".to_owned()
    } else {
        "{\"show_current_game\":false}".to_owned()
    }
}

/// What the PATCH response decides: the persisted value that the server
/// reports when the response is a 200 whose body holds a boolean
/// `show_current_game`, and the error otherwise.
pub open spec fn spec_settings_patch_step(status: u16, body: Seq<char>) -> Result<
    bool,
    ToggleError,
> {
    if status != 200 {
        Err(ToggleError::RemoteStatus(status))
    } else {
        match json_bool_field(body, "show_current_game"@) {
            None => Err(ToggleError::MalformedResponse),
            Some(persisted) => Ok(persisted),
        }
    }
}

/// Interprets the PATCH response of the settings toggle.  The returned
/// value is the one the server reports, not the one that was requested:
/// the response is authoritative.
pub fn settings_patch_step(status: u16, body: &str) -> (r: Result<bool, ToggleError>)
    ensures
        r == spec_settings_patch_step(status, body@),
{
    if status != 200 {
        Err(ToggleError::RemoteStatus(status))
    } else {
        match top_level_bool_field(body, "show_current_game") {
            None => Err(ToggleError::MalformedResponse),
            Some(persisted) => Ok(persisted),
        }
    }
}

} // verus!

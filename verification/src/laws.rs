//! The properties that relate the two toggles' decision functions across
//! calls: what a toggle requests, what two toggles in a row request, and
//! which error every non-200 response yields.

use vstd::prelude::*;
use crate::connections::{
    first_provider_index, records_of, spec_connections_get_step, spec_connections_patch_step,
    ConnectionPatchView, lemma_first_provider_index,
};
use crate::errors::ToggleError;
use crate::json::json_bool_field;
use crate::settings::{spec_settings_get_step, spec_settings_patch_step};

verus! {

/// Toggling round-trips: a settings document showing `current` makes the
/// toggle request `!current`; a second invocation that reads back what
/// the first one persisted requests `current` again.
pub proof fn lemma_settings_toggle_round_trip(
    first_body: Seq<char>,
    second_body: Seq<char>,
    current: bool,
)
    requires
        json_bool_field(first_body, "show_current_game"@) == Some(current),
        json_bool_field(second_body, "show_current_game"@) == Some(!current),
    ensures
        spec_settings_get_step(200, first_body) == Ok::<bool, ToggleError>(!current),
        spec_settings_get_step(200, second_body) == Ok::<bool, ToggleError>(current),
{
}

/// A connections list without a Spotify record makes the connection
/// toggle fail with `ConnectionNotFound`; no patch value is produced, so
/// no PATCH follows.
pub proof fn lemma_no_spotify_record_not_found(body: Seq<char>)
    requires
        records_of(body) matches Some(rs) && forall|j: int|
            0 <= j < rs.len() ==> rs[j].conn_type != "spotify"@,
    ensures
        spec_connections_get_step(200, body) == Err::<ConnectionPatchView, ToggleError>(
            ToggleError::ConnectionNotFound,
        ),
{
    let rs = records_of(body).unwrap();
    lemma_first_provider_index(rs, "spotify"@);
    if let Some(i) = first_provider_index(rs, "spotify"@) {
        assert(rs[i].conn_type != "spotify"@);
    }
}

/// Every GET that does not return 200 — an expired token's 401 among
/// them — fails both toggles with `RemoteStatus` carrying that status,
/// whatever the body holds; no patch value is produced, so no PATCH
/// follows.
pub proof fn lemma_get_error_status(status: u16, body: Seq<char>)
    requires
        status != 200,
    ensures
        spec_settings_get_step(status, body) == Err::<bool, ToggleError>(
            ToggleError::RemoteStatus(status),
        ),
        spec_connections_get_step(status, body) == Err::<ConnectionPatchView, ToggleError>(
            ToggleError::RemoteStatus(status),
        ),
{
}

/// Every PATCH that does not return 200 fails both toggles with
/// `RemoteStatus` carrying that status, whatever the body holds: no
/// boolean state is reported to the caller.
pub proof fn lemma_patch_error_status(status: u16, body: Seq<char>)
    requires
        status != 200,
    ensures
        spec_settings_patch_step(status, body) == Err::<bool, ToggleError>(
            ToggleError::RemoteStatus(status),
        ),
        spec_connections_patch_step(status, body) == Err::<bool, ToggleError>(
            ToggleError::RemoteStatus(status),
        ),
{
}

} // verus!

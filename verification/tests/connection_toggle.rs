use toggle_rpc::connections::{
    connection_patch_body, connection_patch_url, connections_get_step, connections_patch_step,
    connections_url, find_provider, records_from_body, ConnectionPatch, ConnectionRecord,
};
use toggle_rpc::errors::ToggleError;

fn record(conn_type: &str, id: &str, show_activity: bool) -> ConnectionRecord {
    ConnectionRecord {
        conn_type: conn_type.to_owned(),
        id: id.to_owned(),
        show_activity,
    }
}

#[test]
fn connection_toggle_scenario() {
    // GET lists a GitHub record first and the Spotify record second; the
    // toggle addresses the Spotify record's own sub-resource and requests
    // the negated flag; the server confirms.
    let get_body = "[{\"type\":\"github\",\"id\":\"1\",\"show_activity\":true},\
                    {\"type\":\"spotify\",\"id\":\"42\",\"show_activity\":false}]";
    let patch = connections_get_step(200, get_body);
    assert_eq!(
        patch,
        Ok(ConnectionPatch { id: "42".to_owned(), show_activity: true })
    );
    let patch = patch.unwrap();

    let url = connection_patch_url(&patch.id);
    assert_eq!(url, "https://discord.com/api/v9/users/@me/connections/spotify/42");

    assert_eq!(connection_patch_body(patch.show_activity), "{\"show_activity\":true}");

    assert_eq!(connections_patch_step(200, "{\"show_activity\": true}"), Ok(true));
}

#[test]
fn no_spotify_record_is_not_found() {
    let body = "[{\"type\":\"github\",\"id\":\"1\",\"show_activity\":true},\
                 {\"type\":\"steam\",\"id\":\"2\",\"show_activity\":false}]";
    assert_eq!(connections_get_step(200, body), Err(ToggleError::ConnectionNotFound));
}

#[test]
fn empty_connections_list_is_not_found() {
    assert_eq!(connections_get_step(200, "[]"), Err(ToggleError::ConnectionNotFound));
}

#[test]
fn first_spotify_record_wins() {
    let body = "[{\"type\":\"spotify\",\"id\":\"first\",\"show_activity\":false},\
                 {\"type\":\"spotify\",\"id\":\"second\",\"show_activity\":true}]";
    assert_eq!(
        connections_get_step(200, body),
        Ok(ConnectionPatch { id: "first".to_owned(), show_activity: true })
    );
}

#[test]
fn connections_get_unauthorized() {
    assert_eq!(connections_get_step(401, ""), Err(ToggleError::RemoteStatus(401)));
}

#[test]
fn connections_patch_error_status() {
    assert_eq!(
        connections_patch_step(404, "{\"show_activity\": true}"),
        Err(ToggleError::RemoteStatus(404))
    );
}

#[test]
fn connections_body_not_an_array() {
    assert_eq!(
        connections_get_step(200, "{\"type\":\"spotify\"}"),
        Err(ToggleError::MalformedResponse)
    );
}

#[test]
fn connection_record_missing_field() {
    let body = "[{\"type\":\"spotify\",\"show_activity\":false}]";
    assert_eq!(connections_get_step(200, body), Err(ToggleError::MalformedResponse));
}

#[test]
fn connection_record_wrong_field_type() {
    let body = "[{\"type\":\"spotify\",\"id\":7,\"show_activity\":false}]";
    assert_eq!(connections_get_step(200, body), Err(ToggleError::MalformedResponse));
}

#[test]
fn records_from_body_keeps_order_and_extra_fields() {
    let body = "[{\"type\":\"github\",\"id\":\"1\",\"show_activity\":true,\"name\":\"octo\"},\
                 {\"type\":\"spotify\",\"id\":\"42\",\"show_activity\":false}]";
    let records = records_from_body(body).unwrap();
    assert_eq!(records, vec![record("github", "1", true), record("spotify", "42", false)]);
}

#[test]
fn find_provider_picks_first_match() {
    let records = vec![
        record("github", "1", true),
        record("spotify", "42", false),
        record("spotify", "43", true),
    ];
    assert_eq!(find_provider(&records, &"spotify".to_owned()), Some(1));
    assert_eq!(find_provider(&records, &"github".to_owned()), Some(0));
    assert_eq!(find_provider(&records, &"steam".to_owned()), None);
    assert_eq!(find_provider(&Vec::new(), &"spotify".to_owned()), None);
}

#[test]
fn connections_patch_step_reports_server_value() {
    assert_eq!(connections_patch_step(200, "{\"show_activity\": false}"), Ok(false));
}

#[test]
fn connections_url_is_fixed() {
    assert_eq!(connections_url(), "https://discord.com/api/v9/users/@me/connections");
}

#[test]
fn connection_patch_body_off() {
    assert_eq!(connection_patch_body(false), "{\"show_activity\":false}");
}

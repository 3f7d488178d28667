use toggle_rpc::command::{parse_command, Command};
use toggle_rpc::errors::{decimal_string, ToggleError};

#[test]
fn game_argument_dispatches_to_settings_toggle() {
    assert_eq!(parse_command(&"game".to_owned()), Some(Command::Game));
}

#[test]
fn spotify_argument_dispatches_to_connection_toggle() {
    assert_eq!(parse_command(&"spotify".to_owned()), Some(Command::Spotify));
}

#[test]
fn unknown_argument_is_a_usage_error() {
    assert_eq!(parse_command(&"music".to_owned()), None);
    assert_eq!(parse_command(&"".to_owned()), None);
    assert_eq!(parse_command(&"Game".to_owned()), None);
}

#[test]
fn remote_status_message_carries_the_code() {
    assert_eq!(ToggleError::RemoteStatus(401).message(), "Bad status code: 401");
    assert_eq!(ToggleError::RemoteStatus(503).message(), "Bad status code: 503");
}

#[test]
fn other_error_messages() {
    assert_eq!(ToggleError::MalformedResponse.message(), "Malformed response body");
    assert_eq!(
        ToggleError::ConnectionNotFound.message(),
        "Account is not connected to Spotify"
    );
}

#[test]
fn decimal_rendering() {
    assert_eq!(decimal_string(0), "0");
    assert_eq!(decimal_string(7), "7");
    assert_eq!(decimal_string(10), "10");
    assert_eq!(decimal_string(200), "200");
    assert_eq!(decimal_string(65535), "65535");
}

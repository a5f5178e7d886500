use pipeboom::codec::{decode_request, decode_response, encode_request, encode_response};
use pipeboom::ipc::{IpcCommand, IpcMessage, IpcResponse};
use pipeboom::models::PlayerState;

fn round_trips(resp: IpcResponse) {
    let wire = encode_response(&resp);
    let back = decode_response(wire.as_str());
    assert_eq!(back, Some(resp));
}

#[test]
fn response_round_trip_success() {
    round_trips(IpcResponse::Success);
    assert_eq!(encode_response(&IpcResponse::Success), "\"Success\"");
}

#[test]
fn response_round_trip_error_plain() {
    round_trips(IpcResponse::Error("boom".to_string()));
    assert_eq!(
        encode_response(&IpcResponse::Error("boom".to_string())),
        "{\"Error\":\"boom\"}"
    );
}

#[test]
fn response_round_trip_error_empty() {
    round_trips(IpcResponse::Error(String::new()));
}

#[test]
fn response_round_trip_error_with_escapes() {
    round_trips(IpcResponse::Error("say \"hi\" \\ back".to_string()));
    round_trips(IpcResponse::Error("line one\nline two\ttabbed\r".to_string()));
    round_trips(IpcResponse::Error("control \u{1} and \u{1f} chars".to_string()));
    round_trips(IpcResponse::Error("unicode: żółć 音楽 🎵".to_string()));
}

#[test]
fn error_encoding_escapes_like_json() {
    let wire = encode_response(&IpcResponse::Error("a\"b\\c\nd".to_string()));
    assert_eq!(wire, "{\"Error\":\"a\\\"b\\\\c\\nd\"}");
}

#[test]
fn response_round_trip_current_song_full() {
    round_trips(IpcResponse::CurrentSong {
        title: Some("Gloria".to_string()),
        artist: Some("Patti Smith".to_string()),
        album: Some("Horses".to_string()),
        state: PlayerState::Playing,
    });
}

#[test]
fn response_round_trip_current_song_empty() {
    round_trips(IpcResponse::CurrentSong {
        title: None,
        artist: None,
        album: None,
        state: PlayerState::Stopped,
    });
}

#[test]
fn response_round_trip_current_song_every_state() {
    for state in [
        PlayerState::Playing,
        PlayerState::Paused,
        PlayerState::Stopped,
        PlayerState::FastForwarding,
        PlayerState::Rewinding,
        PlayerState::Unknown,
    ] {
        round_trips(IpcResponse::CurrentSong {
            title: Some("a".to_string()),
            artist: None,
            album: Some(String::new()),
            state,
        });
    }
}

#[test]
fn current_song_wire_format() {
    let wire = encode_response(&IpcResponse::CurrentSong {
        title: Some("T".to_string()),
        artist: None,
        album: Some("A".to_string()),
        state: PlayerState::Paused,
    });
    assert_eq!(
        wire,
        "{\"CurrentSong\":{\"title\":\"T\",\"artist\":null,\"album\":\"A\",\"state\":\"paused\"}}"
    );
}

#[test]
fn response_round_trip_status_all_combinations() {
    for bits in 0u8..16 {
        round_trips(IpcResponse::Status {
            running: bits & 1 != 0,
            discord_connected: bits & 2 != 0,
            discord_open: bits & 4 != 0,
            music_app_open: bits & 8 != 0,
        });
    }
}

#[test]
fn status_wire_format() {
    let wire = encode_response(&IpcResponse::Status {
        running: true,
        discord_connected: false,
        discord_open: false,
        music_app_open: true,
    });
    assert_eq!(
        wire,
        "{\"Status\":{\"running\":true,\"discord_connected\":false,\"discord_open\":false,\"music_app_open\":true}}"
    );
}

#[test]
fn encoded_responses_are_valid_json() {
    let samples = vec![
        IpcResponse::Success,
        IpcResponse::Error("it \"broke\"\nbadly \\ here".to_string()),
        IpcResponse::CurrentSong {
            title: Some("Song".to_string()),
            artist: None,
            album: Some("Album".to_string()),
            state: PlayerState::Playing,
        },
        IpcResponse::Status {
            running: true,
            discord_connected: true,
            discord_open: true,
            music_app_open: false,
        },
    ];
    for resp in samples {
        let wire = encode_response(&resp);
        let parsed: Result<serde_json::Value, _> = serde_json::from_str(wire.as_str());
        assert!(parsed.is_ok());
    }
}

#[test]
fn error_message_survives_serde_parse() {
    let wire = encode_response(&IpcResponse::Error("a\"b\\c\nd\u{1}e".to_string()));
    let parsed: serde_json::Value = serde_json::from_str(wire.as_str()).unwrap();
    assert_eq!(parsed["Error"].as_str().unwrap(), "a\"b\\c\nd\u{1}e");
}

#[test]
fn request_wire_format() {
    assert_eq!(
        encode_request(&IpcMessage { command: IpcCommand::Start }),
        "{\"command\":\"Start\"}"
    );
    assert_eq!(
        encode_request(&IpcMessage { command: IpcCommand::Stop }),
        "{\"command\":\"Stop\"}"
    );
    assert_eq!(
        encode_request(&IpcMessage { command: IpcCommand::CurrentSong }),
        "{\"command\":\"CurrentSong\"}"
    );
    assert_eq!(
        encode_request(&IpcMessage { command: IpcCommand::Status }),
        "{\"command\":\"Status\"}"
    );
    assert_eq!(
        encode_request(&IpcMessage { command: IpcCommand::Shutdown }),
        "{\"command\":\"Shutdown\"}"
    );
}

#[test]
fn request_round_trip_every_command() {
    for command in [
        IpcCommand::Start,
        IpcCommand::Stop,
        IpcCommand::CurrentSong,
        IpcCommand::Status,
        IpcCommand::Shutdown,
    ] {
        let msg = IpcMessage { command };
        let wire = encode_request(&msg);
        assert_eq!(decode_request(wire.as_str()), Some(msg));
    }
}

#[test]
fn requests_tolerate_whitespace_in_the_envelope() {
    let msg = IpcMessage { command: IpcCommand::Start };
    assert_eq!(decode_request("{ \"command\": \"Start\" }"), Some(msg));
    assert_eq!(decode_request("  {\"command\"\t:\n\"Start\"}  "), Some(msg));
    assert_eq!(
        decode_request("{\"command\" : \"Shutdown\"}"),
        Some(IpcMessage { command: IpcCommand::Shutdown })
    );
}

#[test]
fn malformed_requests_are_refused() {
    assert_eq!(decode_request(""), None);
    assert_eq!(decode_request("not json at all"), None);
    assert_eq!(decode_request("{\"command\":\"Restart\"}"), None);
    assert_eq!(decode_request("{\"command\":\"Start\""), None);
    assert_eq!(decode_request("{\"command\":\"start\"}"), None);
    assert_eq!(decode_request("{\"cmd\":\"Start\"}"), None);
    assert_eq!(decode_request("{\"command\":\"Start\"} x"), None);
}

#[test]
fn malformed_responses_are_refused() {
    assert_eq!(decode_response(""), None);
    assert_eq!(decode_response("Success"), None);
    assert_eq!(decode_response("{\"Error\":\"unterminated}"), None);
    assert_eq!(decode_response("{\"Error\":\"x\"} trailing"), None);
    assert_eq!(decode_response("{\"Status\":{\"running\":maybe}}"), None);
    assert_eq!(decode_response("{\"CurrentSong\":{\"title\":12}}"), None);
}

#[test]
fn decode_accepts_unicode_escapes() {
    assert_eq!(
        decode_response("{\"Error\":\"tab\\u0009end\"}"),
        Some(IpcResponse::Error("tab\tend".to_string()))
    );
    assert_eq!(
        decode_response("{\"Error\":\"bell\\u0007\"}"),
        Some(IpcResponse::Error("bell\u{7}".to_string()))
    );
}

use pipeboom::config::{parse_duration, Config, LogLevel};
use pipeboom::error::{AppError, PipeBoomError};
use pipeboom::models::{ApiResult, ApiResults, PlayerState, Song, SongDetails};
use pipeboom::utils::{current_time_as_u64, remove_char, str_eq, trim_ws, truncate};

#[test]
fn truncate_cuts_long_strings_to_exactly_128() {
    let long: String = "x".repeat(300);
    let cut = truncate(long.as_str(), 128);
    assert_eq!(cut.chars().count(), 128);
    let exact: String = "y".repeat(128);
    assert_eq!(truncate(exact.as_str(), 128).chars().count(), 128);
}

#[test]
fn truncate_leaves_short_strings_alone() {
    assert_eq!(truncate("short", 128), "short");
    assert_eq!(truncate("", 128), "");
    let almost: String = "z".repeat(127);
    assert_eq!(truncate(almost.as_str(), 128), almost.as_str());
}

#[test]
fn truncate_counts_code_points_not_bytes() {
    let wide: String = "é".repeat(130);
    let cut = truncate(wide.as_str(), 128);
    assert_eq!(cut.chars().count(), 128);
    assert!(cut.chars().all(|c| c == 'é'));
}

#[test]
fn str_eq_and_remove_char() {
    assert!(str_eq("abc", "abc"));
    assert!(!str_eq("abc", "abd"));
    assert!(!str_eq("abc", "ab"));
    assert_eq!(remove_char("a\"b\"c", '"'), "abc");
    assert_eq!(remove_char("nothing", 'x'), "nothing");
}

#[test]
fn trim_ws_strips_both_ends() {
    assert_eq!(trim_ws("  hello \n"), "hello");
    assert_eq!(trim_ws("\t\r\n"), "");
    assert_eq!(trim_ws("inner space kept"), "inner space kept");
    assert_eq!(trim_ws(""), "");
}

#[test]
fn clock_reads_a_sensible_time() {
    let t = current_time_as_u64().unwrap();
    // Well after 2020-01-01, well before the year 10000.
    assert!(t > 1_577_836_800);
    assert!(t < 253_402_300_800);
}

#[test]
fn parse_duration_accepts_the_bounded_range() {
    assert_eq!(parse_duration("1"), Ok(1));
    assert_eq!(parse_duration("5"), Ok(5));
    assert_eq!(parse_duration("10"), Ok(10));
    // A single leading plus sign is part of the numeral syntax.
    assert_eq!(parse_duration("+5"), Ok(5));
    assert_eq!(parse_duration("+10"), Ok(10));
}

#[test]
fn parse_duration_rejects_out_of_range() {
    assert_eq!(parse_duration("0"), Err("Must be between 1-10".to_string()));
    assert_eq!(parse_duration("11"), Err("Must be between 1-10".to_string()));
    assert_eq!(parse_duration("255"), Err("Must be between 1-10".to_string()));
}

#[test]
fn parse_duration_rejects_non_numbers() {
    assert_eq!(parse_duration(""), Err("Not a number".to_string()));
    assert_eq!(parse_duration("abc"), Err("Not a number".to_string()));
    assert_eq!(parse_duration("1.5"), Err("Not a number".to_string()));
    assert_eq!(parse_duration("-3"), Err("Not a number".to_string()));
    assert_eq!(parse_duration("256"), Err("Not a number".to_string()));
    assert_eq!(parse_duration("99999999999999999999"), Err("Not a number".to_string()));
    assert_eq!(parse_duration("+"), Err("Not a number".to_string()));
    assert_eq!(parse_duration("++5"), Err("Not a number".to_string()));
    assert_eq!(parse_duration("+0"), Err("Must be between 1-10".to_string()));
}

#[test]
fn player_state_tokens_round_trip() {
    let all = [
        (PlayerState::Playing, "playing"),
        (PlayerState::Paused, "paused"),
        (PlayerState::Stopped, "stopped"),
        (PlayerState::FastForwarding, "fastForwarding"),
        (PlayerState::Rewinding, "rewinding"),
        (PlayerState::Unknown, "unknown"),
    ];
    for (state, token) in all {
        assert_eq!(state.to_token(), token);
        assert_eq!(PlayerState::from_token(token), state);
    }
}

#[test]
fn unrecognized_tokens_read_as_unknown() {
    assert_eq!(PlayerState::from_token("buffering"), PlayerState::Unknown);
    assert_eq!(PlayerState::from_token(""), PlayerState::Unknown);
    assert_eq!(PlayerState::from_token("Playing"), PlayerState::Unknown);
}

#[test]
fn song_details_strip_quotes() {
    let d = SongDetails::new(
        "\"art\"".to_string(),
        "al\"bum".to_string(),
        "plain".to_string(),
    );
    assert_eq!(d.artwork, "art");
    assert_eq!(d.album_url, "album");
    assert_eq!(d.song_url, "plain");
}

#[test]
fn pipeboom_error_messages_carry_their_prefix() {
    let cases = vec![
        (PipeBoomError::AppleMusic("m".to_string()), "APPLE MUSIC ERROR: m"),
        (PipeBoomError::Discord("m".to_string()), "DISCORD ERROR: m"),
        (PipeBoomError::Osascript("m".to_string()), "OSASCRIPT ERROR: m"),
        (PipeBoomError::Config("m".to_string()), "CONFIGURATION ERROR: m"),
        (PipeBoomError::Parse("m".to_string()), "PARSE ERROR: m"),
        (PipeBoomError::Io("m".to_string()), "IO ERROR: m"),
        (PipeBoomError::Network("m".to_string()), "NETWORK ERROR: m"),
        (PipeBoomError::Internal("m".to_string()), "INTERNAL ERROR: m"),
        (PipeBoomError::Ipc("m".to_string()), "IPC ERROR: m"),
        (PipeBoomError::Setup("m".to_string()), "SETUP ERROR: m"),
    ];
    for (e, expected) in cases {
        assert_eq!(e.message(), expected);
    }
}

#[test]
fn exactly_the_transient_kinds_are_recoverable() {
    assert!(PipeBoomError::Discord("x".to_string()).is_recoverable());
    assert!(PipeBoomError::AppleMusic("x".to_string()).is_recoverable());
    assert!(PipeBoomError::Network("x".to_string()).is_recoverable());
    assert!(!PipeBoomError::Osascript("x".to_string()).is_recoverable());
    assert!(!PipeBoomError::Config("x".to_string()).is_recoverable());
    assert!(!PipeBoomError::Parse("x".to_string()).is_recoverable());
    assert!(!PipeBoomError::Io("x".to_string()).is_recoverable());
    assert!(!PipeBoomError::Internal("x".to_string()).is_recoverable());
    assert!(!PipeBoomError::Ipc("x".to_string()).is_recoverable());
    assert!(!PipeBoomError::Setup("x".to_string()).is_recoverable());
}

#[test]
fn app_error_messages_carry_their_prefix() {
    assert_eq!(AppError::Discord("m".to_string()).message(), "Discord error: m");
    assert_eq!(AppError::Parse("m".to_string()).message(), "Parse error: m");
    assert_eq!(AppError::Internal("m".to_string()).message(), "Internal error: m");
}

#[test]
fn config_defaults() {
    let c = Config::default();
    assert_eq!(c.discord_app_id, "996864734957670452");
    assert_eq!(c.poll_interval_secs, 1);
    assert_eq!(c.log_level, LogLevel::Info);
    assert_eq!(c.max_log_size, 20 * 1024 * 1024);
    assert_eq!(c.socket_path, "pipeboom.sock");
}

#[test]
fn api_results_hold_plain_values() {
    let r = ApiResults {
        result_count: 1,
        results: vec![ApiResult {
            wrapper_type: "track".to_string(),
            artist_name: "A".to_string(),
            album_name: "B".to_string(),
            artwork_url: "art".to_string(),
            album_url: "al".to_string(),
            artist_url: None,
            song_url: Some("s".to_string()),
        }],
    };
    assert_eq!(r.results[0].song_url.as_deref(), Some("s"));
}

#[test]
fn songs_compare_by_value() {
    let a = Song {
        id: 1,
        name: "n".to_string(),
        artist: "a".to_string(),
        album: "al".to_string(),
        album_artist: "aa".to_string(),
        year: 2000,
        duration: 10,
        player_position: 3,
    };
    assert_eq!(a.clone(), a);
}

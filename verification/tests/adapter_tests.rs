use pipeboom::error::PipeBoomError;
use pipeboom::ipc::IpcResponse;
use pipeboom::itunes::{
    album_search_query, details_from_album_results, details_from_song_results, get_primary_artist,
    percent_encode_fragment, search_url, song_search_query,
};
use pipeboom::models::{ApiResult, ApiResults, PlayerState, Song};
use pipeboom::osascript::{
    current_song_script, get_current_song, get_is_open, get_player_state, is_open_script,
    player_state_script, wrap_script_expression, SongQueryOutcome,
};
use pipeboom::runner::{
    app_name_for_version, current_song_response, parse_macos_version, start_response,
    state_or_unknown, status_response, stop_response,
};
use pipeboom::setup::{err_log_path, launch_agent_plist, log_path, plist_path, should_rotate, BUNDLE_ID};

fn sample_song() -> Song {
    Song {
        id: 7,
        name: "Gloria".to_string(),
        artist: "Patti Smith".to_string(),
        album: "Horses".to_string(),
        album_artist: String::new(),
        year: 1975,
        duration: 386,
        player_position: 42,
    }
}

fn result_with(artwork: &str, album_url: &str, song_url: Option<&str>) -> ApiResults {
    ApiResults {
        result_count: 1,
        results: vec![ApiResult {
            wrapper_type: "track".to_string(),
            artist_name: "A".to_string(),
            album_name: "B".to_string(),
            artwork_url: artwork.to_string(),
            album_url: album_url.to_string(),
            artist_url: None,
            song_url: song_url.map(|s| s.to_string()),
        }],
    }
}

#[test]
fn percent_encoding_matches_the_fragment_set() {
    assert_eq!(percent_encode_fragment("foo <bar>"), "foo%20%3Cbar%3E");
    assert_eq!(percent_encode_fragment("plain"), "plain");
    assert_eq!(percent_encode_fragment("a\"b`c"), "a%22b%60c");
    assert_eq!(percent_encode_fragment("é"), "%C3%A9");
    assert_eq!(percent_encode_fragment(""), "");
}

#[test]
fn queries_join_the_song_fields() {
    let song = sample_song();
    assert_eq!(song_search_query(&song), "Patti Smith Gloria Horses");
    let mut amp = sample_song();
    amp.artist = "Simon & Garfunkel".to_string();
    assert_eq!(song_search_query(&amp), "Simon  Garfunkel Gloria Horses");
}

#[test]
fn primary_artist_prefers_album_artist_then_splits() {
    let mut song = sample_song();
    song.album_artist = "The Band".to_string();
    assert_eq!(get_primary_artist(&song), "The Band");
    song.album_artist = String::new();
    song.artist = "First, Second & Third".to_string();
    assert_eq!(get_primary_artist(&song), "First");
    song.artist = "First & Second".to_string();
    assert_eq!(get_primary_artist(&song), "First");
    song.artist = "Solo".to_string();
    assert_eq!(get_primary_artist(&song), "Solo");
}

#[test]
fn album_query_uses_the_primary_artist() {
    let mut song = sample_song();
    song.artist = "First, Second".to_string();
    assert_eq!(album_search_query(&song), "First Horses");
}

#[test]
fn search_urls_carry_the_encoded_query() {
    assert_eq!(
        search_url("song", "a b"),
        "https://itunes.apple.com/search?media=music&entity=song&limit=1&term=a%20b"
    );
    // Every asterisk is dropped after encoding.
    assert_eq!(
        search_url("album", "a*b"),
        "https://itunes.apple.com/search?media=music&entity=album&limit=1&term=ab"
    );
}

#[test]
fn song_results_pick_the_first_hit() {
    let r = result_with("art", "album-link", Some("track-link"));
    let d = details_from_song_results(&r).unwrap();
    assert_eq!(d.artwork, "art");
    assert_eq!(d.album_url, "album-link");
    assert_eq!(d.song_url, "track-link");
    let none = details_from_song_results(&ApiResults { result_count: 0, results: vec![] });
    assert!(none.is_none());
}

#[test]
fn missing_track_link_reads_as_empty() {
    let r = result_with("art", "album-link", None);
    let d = details_from_song_results(&r).unwrap();
    assert_eq!(d.song_url, "");
}

#[test]
fn album_results_fall_back_to_placeholder_artwork() {
    let r = result_with("", "album-link", None);
    let d = details_from_album_results(&r);
    assert_eq!(d.artwork, "no_art");
    assert_eq!(d.album_url, "album-link");
    assert_eq!(d.song_url, "album-link");
    let empty = details_from_album_results(&ApiResults { result_count: 0, results: vec![] });
    assert_eq!(empty.artwork, "no_art");
    assert_eq!(empty.album_url, "");
    assert_eq!(empty.song_url, "");
}

#[test]
fn scripts_name_the_application() {
    assert_eq!(
        is_open_script("Music"),
        "Application('System Events').processes['Music'].exists()"
    );
    assert_eq!(player_state_script("Music"), "Application('Music').playerState()");
    assert!(current_song_script("Music").contains("currentTrack().properties()"));
    assert!(current_song_script("Music").contains("playerPosition:"));
    assert_eq!(
        wrap_script_expression("1 + 1"),
        "(() => JSON.stringify(1 + 1))();"
    );
}

#[test]
fn is_open_output_parses_booleans() {
    assert_eq!(get_is_open("true\n"), Ok(true));
    assert_eq!(get_is_open("  false  "), Ok(false));
    assert!(matches!(get_is_open("yes"), Err(PipeBoomError::Parse(_))));
    assert!(matches!(get_is_open(""), Err(PipeBoomError::Parse(_))));
}

#[test]
fn player_state_output_parses_tokens() {
    assert_eq!(get_player_state("\"playing\"\n"), Ok(PlayerState::Playing));
    assert_eq!(get_player_state("\"paused\""), Ok(PlayerState::Paused));
    assert_eq!(get_player_state("\"whirring\""), Ok(PlayerState::Unknown));
    assert!(matches!(get_player_state("playing"), Err(PipeBoomError::Parse(_))));
    assert!(matches!(get_player_state("42"), Err(PipeBoomError::Parse(_))));
}

#[test]
fn current_song_outcomes_settle_as_specified() {
    let song = sample_song();
    assert_eq!(
        get_current_song(SongQueryOutcome::Parsed(song.clone())),
        Ok(Some(song))
    );
    assert_eq!(get_current_song(SongQueryOutcome::NoTrack), Ok(None));
    // A script failure of the player kind reads as "no song".
    assert_eq!(
        get_current_song(SongQueryOutcome::ScriptFailed(PipeBoomError::AppleMusic(
            "window closed".to_string()
        ))),
        Ok(None)
    );
    assert_eq!(
        get_current_song(SongQueryOutcome::ScriptFailed(PipeBoomError::Io("x".to_string()))),
        Err(PipeBoomError::Io("x".to_string()))
    );
    assert_eq!(
        get_current_song(SongQueryOutcome::BadData("missing field".to_string())),
        Err(PipeBoomError::Parse("Failed to parse song data: missing field".to_string()))
    );
}

#[test]
fn version_strings_parse_to_components() {
    assert_eq!(parse_macos_version("10.15\n"), Ok((10, 15)));
    assert_eq!(parse_macos_version("14.2.1"), Ok((14, 2)));
    assert_eq!(parse_macos_version("11.0"), Ok((11, 0)));
    assert!(parse_macos_version("bogus").is_err());
    assert!(parse_macos_version("").is_err());
    assert!(parse_macos_version(".5").is_err());
}

#[test]
fn app_name_follows_the_version() {
    assert_eq!(app_name_for_version(10, 15), "Music");
    assert_eq!(app_name_for_version(11, 0), "Music");
    assert_eq!(app_name_for_version(10, 14), "iTunes");
    assert_eq!(app_name_for_version(9, 99), "iTunes");
}

#[test]
fn forwarding_replies_report_channel_failures() {
    assert_eq!(start_response(true), IpcResponse::Success);
    assert_eq!(
        start_response(false),
        IpcResponse::Error("Failed to send start command to player controller".to_string())
    );
    assert_eq!(stop_response(true), IpcResponse::Success);
    assert_eq!(
        stop_response(false),
        IpcResponse::Error("Failed to send stop command to player controller".to_string())
    );
}

#[test]
fn current_song_reply_fills_fields() {
    let song = sample_song();
    let r = current_song_response(&Ok(Some(song)), PlayerState::Playing);
    assert_eq!(
        r,
        IpcResponse::CurrentSong {
            title: Some("Gloria".to_string()),
            artist: Some("Patti Smith".to_string()),
            album: Some("Horses".to_string()),
            state: PlayerState::Playing,
        }
    );
    assert_eq!(
        current_song_response(&Ok(None), PlayerState::Playing),
        IpcResponse::CurrentSong { title: None, artist: None, album: None, state: PlayerState::Stopped }
    );
    assert_eq!(
        current_song_response(&Err(PipeBoomError::AppleMusic("gone".to_string())), PlayerState::Unknown),
        IpcResponse::Error("Failed to get current song: APPLE MUSIC ERROR: gone".to_string())
    );
}

#[test]
fn state_or_unknown_defaults() {
    assert_eq!(state_or_unknown(&Ok(PlayerState::Paused)), PlayerState::Paused);
    assert_eq!(
        state_or_unknown(&Err(PipeBoomError::Parse("x".to_string()))),
        PlayerState::Unknown
    );
}

#[test]
fn status_never_propagates_adapter_errors() {
    // A failed liveness query reads as false, never as an error reply.
    let r = status_response(
        &Err(PipeBoomError::AppleMusic("broken".to_string())),
        &Err(PipeBoomError::Osascript("broken".to_string())),
        &None,
    );
    assert_eq!(
        r,
        IpcResponse::Status {
            running: false,
            discord_connected: false,
            discord_open: false,
            music_app_open: false,
        }
    );
}

#[test]
fn status_when_daemon_just_started_and_nothing_open() {
    // Scenario: a Status query right after startup, neither application
    // open. The running flag follows the start outcome; everything else is
    // false.
    for started in [false, true] {
        let r = status_response(&Ok(false), &Ok(false), &Some(started));
        assert_eq!(
            r,
            IpcResponse::Status {
                running: started,
                discord_connected: false,
                discord_open: false,
                music_app_open: false,
            }
        );
    }
}

#[test]
fn status_mirrors_discord_open_into_connected() {
    let r = status_response(&Ok(true), &Ok(true), &Some(true));
    assert_eq!(
        r,
        IpcResponse::Status {
            running: true,
            discord_connected: true,
            discord_open: true,
            music_app_open: true,
        }
    );
}

#[test]
fn setup_paths_and_rotation() {
    assert_eq!(
        plist_path("/Users/me", BUNDLE_ID),
        format!("/Users/me/Library/LaunchAgents/{}.plist", BUNDLE_ID)
    );
    assert_eq!(log_path("/Users/me"), "/Users/me/Library/Logs/pipeboom.log");
    assert_eq!(err_log_path("/Users/me"), "/Users/me/Library/Logs/pipeboom.err");
    assert!(!should_rotate(20 * 1048576, 20));
    assert!(should_rotate(20 * 1048576 + 1, 20));
    assert!(!should_rotate(u64::MAX, u64::MAX));
}

#[test]
fn launch_agent_plist_names_the_service_and_paths() {
    let plist = launch_agent_plist(BUNDLE_ID, "/usr/local/bin", "/Users/me");
    assert!(plist.starts_with("<?xml version=\"1.0\" encoding=\"UTF-8\"?>"));
    assert!(plist.contains(&format!("<string>{}</string>", BUNDLE_ID)));
    assert!(plist.contains("<string>/usr/local/bin/pipeboom</string>"));
    assert!(plist.contains("<string>/Users/me/Library/Logs/pipeboom.log</string>"));
    assert!(plist.contains("<key>KeepAlive</key>"));
    assert!(plist.ends_with("</plist>\n"));
}

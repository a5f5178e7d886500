use pipeboom::controller::{Controller, CycleAction};
use pipeboom::error::PipeBoomError;
use pipeboom::models::{PlayerState, Song, SongDetails};

fn fresh() -> Controller {
    Controller::new("Music".to_string(), 1)
}

fn sample_song() -> Song {
    Song {
        id: 7,
        name: "Gloria".to_string(),
        artist: "Patti Smith".to_string(),
        album: "Horses".to_string(),
        album_artist: "Patti Smith".to_string(),
        year: 1975,
        duration: 386,
        player_position: 42,
    }
}

fn sample_details() -> SongDetails {
    SongDetails::new(
        "https://art.example/cover.jpg".to_string(),
        "https://music.example/album".to_string(),
        "https://music.example/track".to_string(),
    )
}

#[test]
fn controller_starts_stopped() {
    let c = fresh();
    assert!(!c.is_running);
    assert!(!c.has_client);
    assert!(!c.on_get_status());
}

#[test]
fn successful_start_runs() {
    let mut c = fresh();
    assert!(c.start_needs_attempt());
    c.complete_start(true);
    assert!(c.on_get_status());
    assert!(c.has_client);
}

#[test]
fn failed_start_stays_stopped() {
    let mut c = fresh();
    assert!(c.start_needs_attempt());
    c.complete_start(false);
    assert!(!c.on_get_status());
    assert!(!c.has_client);
}

#[test]
fn start_while_running_is_a_no_op() {
    let mut c = fresh();
    c.complete_start(true);
    // A second Start asks for no new connection attempt and changes nothing.
    assert!(!c.start_needs_attempt());
    assert!(c.on_get_status());
}

#[test]
fn stop_tears_down_once_and_is_idempotent() {
    let mut c = fresh();
    c.complete_start(true);
    assert!(c.on_stop());
    assert!(!c.on_get_status());
    // Stopping an already stopped controller is a no-op with no teardown.
    assert!(!c.on_stop());
    assert!(!c.on_get_status());
}

#[test]
fn shutdown_behaves_like_stop() {
    let mut c = fresh();
    c.complete_start(true);
    assert!(c.on_shutdown());
    assert!(!c.on_get_status());
    let mut d = fresh();
    assert!(!d.on_shutdown());
}

#[test]
fn recoverable_cycle_error_keeps_running() {
    let mut c = fresh();
    c.complete_start(true);
    let e = PipeBoomError::Discord("transient".to_string());
    assert!(!c.on_cycle_error(&e));
    assert!(c.on_get_status());
}

#[test]
fn fatal_cycle_error_stops() {
    let mut c = fresh();
    c.complete_start(true);
    let e = PipeBoomError::Internal("broken invariant".to_string());
    assert!(c.on_cycle_error(&e));
    assert!(!c.on_get_status());
}

#[test]
fn cycle_proceeds_when_both_apps_open() {
    let c = fresh();
    assert_eq!(c.cycle_check_apps(&Ok(true), &Ok(true)), None);
}

#[test]
fn cycle_stops_when_discord_closes() {
    let c = fresh();
    assert_eq!(
        c.cycle_check_apps(&Ok(false), &Ok(true)),
        Some(CycleAction::StopDiscordClosed)
    );
    // The player's state is not even consulted.
    assert_eq!(
        c.cycle_check_apps(&Ok(false), &Err(PipeBoomError::Osascript("x".to_string()))),
        Some(CycleAction::StopDiscordClosed)
    );
}

#[test]
fn cycle_stops_when_music_closes() {
    // Scenario: the media player goes away mid-run. The cycle calls for the
    // music-closed stop, the teardown then clears the presence exactly once,
    // and the controller ends up stopped.
    let mut c = fresh();
    c.complete_start(true);
    assert_eq!(
        c.cycle_check_apps(&Ok(true), &Ok(false)),
        Some(CycleAction::StopMusicClosed)
    );
    let teardowns = [c.on_stop(), c.on_stop()];
    assert_eq!(teardowns, [true, false]);
    assert!(!c.on_get_status());
}

#[test]
fn recoverable_check_failures_skip_the_cycle() {
    // A player-kind failure of a liveness check is transient: the cycle is
    // skipped, the controller keeps running.
    let c = fresh();
    assert_eq!(
        c.cycle_check_apps(&Err(PipeBoomError::AppleMusic("no tty".to_string())), &Ok(true)),
        Some(CycleAction::SkipRecoverable(PipeBoomError::AppleMusic(
            "Failed to check Discord status: APPLE MUSIC ERROR: no tty".to_string()
        )))
    );
    assert_eq!(
        c.cycle_check_apps(&Ok(true), &Err(PipeBoomError::AppleMusic("no tty".to_string()))),
        Some(CycleAction::SkipRecoverable(PipeBoomError::AppleMusic(
            "Failed to check Music status: APPLE MUSIC ERROR: no tty".to_string()
        )))
    );
}

#[test]
fn other_check_failures_are_fatal_with_context() {
    let c = fresh();
    match c.cycle_check_apps(&Err(PipeBoomError::Osascript("no tty".to_string())), &Ok(true)) {
        Some(CycleAction::StopFatal(PipeBoomError::Internal(m))) => {
            assert_eq!(m, "Failed to check Discord status: OSASCRIPT ERROR: no tty");
        }
        other => panic!("unexpected action: {:?}", other),
    }
    match c.cycle_check_apps(&Ok(true), &Err(PipeBoomError::Io("disk".to_string()))) {
        Some(CycleAction::StopFatal(PipeBoomError::Internal(m))) => {
            assert_eq!(m, "Failed to check Music status: IO ERROR: disk");
        }
        other => panic!("unexpected action: {:?}", other),
    }
}

#[test]
fn playback_branches() {
    let c = fresh();
    assert_eq!(c.cycle_playback_action(&Ok(PlayerState::Playing)), None);
    assert_eq!(
        c.cycle_playback_action(&Ok(PlayerState::Paused)),
        Some(CycleAction::Clear)
    );
    assert_eq!(
        c.cycle_playback_action(&Ok(PlayerState::Stopped)),
        Some(CycleAction::Clear)
    );
    match c.cycle_playback_action(&Err(PipeBoomError::Parse("bad".to_string()))) {
        Some(CycleAction::StopFatal(PipeBoomError::Internal(m))) => {
            assert_eq!(m, "Failed to get player state: PARSE ERROR: bad");
        }
        other => panic!("unexpected action: {:?}", other),
    }
    assert_eq!(
        c.cycle_playback_action(&Err(PipeBoomError::Network("slow".to_string()))),
        Some(CycleAction::SkipRecoverable(PipeBoomError::Network(
            "Failed to get player state: NETWORK ERROR: slow".to_string()
        )))
    );
}

#[test]
fn song_branches() {
    let c = fresh();
    assert_eq!(c.cycle_song_action(&Ok(Some(sample_song()))), None);
    assert_eq!(c.cycle_song_action(&Ok(None)), Some(CycleAction::Clear));
    match c.cycle_song_action(&Err(PipeBoomError::Parse("bad".to_string()))) {
        Some(CycleAction::StopFatal(PipeBoomError::Internal(m))) => {
            assert_eq!(m, "Failed to get current song: PARSE ERROR: bad");
        }
        other => panic!("unexpected action: {:?}", other),
    }
    assert_eq!(
        c.cycle_song_action(&Err(PipeBoomError::AppleMusic("hiccup".to_string()))),
        Some(CycleAction::SkipRecoverable(PipeBoomError::AppleMusic(
            "Failed to get current song: APPLE MUSIC ERROR: hiccup".to_string()
        )))
    );
}

#[test]
fn resolved_details_push_presence() {
    // Scenario: both apps open, the player playing, the track resolved. One
    // push per cycle, its start timestamp the wall clock minus the track's
    // elapsed position, its button the track link.
    let c = fresh();
    let song = sample_song();
    let details = sample_details();
    let now = 1_000_000u64;
    match c.cycle_details_action(&song, &Ok(details), now) {
        CycleAction::Push(p) => {
            assert_eq!(p.start_timestamp, now - 42);
            assert_eq!(p.button_url, "https://music.example/track");
            assert_eq!(p.state_line, "Patti Smith");
            assert_eq!(p.details_line, "Gloria");
            assert_eq!(p.large_text, "Horses");
            assert_eq!(p.large_image, "https://art.example/cover.jpg");
            assert_eq!(p.small_image, "apple_music_logo");
        }
        other => panic!("unexpected action: {:?}", other),
    }
}

#[test]
fn button_falls_back_to_album_then_fixed_link() {
    let c = fresh();
    let song = sample_song();
    let album_only = SongDetails::new(
        "art".to_string(),
        "https://music.example/album".to_string(),
        String::new(),
    );
    match c.cycle_details_action(&song, &Ok(album_only), 100) {
        CycleAction::Push(p) => assert_eq!(p.button_url, "https://music.example/album"),
        other => panic!("unexpected action: {:?}", other),
    }
    let bare = SongDetails::new("art".to_string(), String::new(), String::new());
    match c.cycle_details_action(&song, &Ok(bare), 100) {
        CycleAction::Push(p) => assert_eq!(p.button_url, "https://music.apple.com/"),
        other => panic!("unexpected action: {:?}", other),
    }
}

#[test]
fn lookup_failures_classify_by_kind() {
    let c = fresh();
    let song = sample_song();
    let net = PipeBoomError::Network("timed out".to_string());
    assert_eq!(
        c.cycle_details_action(&song, &Err(net.clone()), 100),
        CycleAction::SkipRecoverable(net)
    );
    let fatal = PipeBoomError::Internal("bad".to_string());
    assert_eq!(
        c.cycle_details_action(&song, &Err(fatal.clone()), 100),
        CycleAction::StopFatal(fatal)
    );
}

#[test]
fn wait_check_reports_both_apps() {
    let c = fresh();
    assert_eq!(c.wait_apps_check(&Ok(true), &Ok(true)), Ok(true));
    assert_eq!(c.wait_apps_check(&Ok(true), &Ok(false)), Ok(false));
    assert_eq!(c.wait_apps_check(&Ok(false), &Ok(true)), Ok(false));
    match c.wait_apps_check(&Err(PipeBoomError::AppleMusic("x".to_string())), &Ok(true)) {
        Err(PipeBoomError::Internal(m)) => {
            assert_eq!(m, "Failed to check if Discord is open: APPLE MUSIC ERROR: x");
        }
        other => panic!("unexpected result: {:?}", other),
    }
    match c.wait_apps_check(&Ok(true), &Err(PipeBoomError::AppleMusic("x".to_string()))) {
        Err(PipeBoomError::Internal(m)) => {
            assert_eq!(m, "Failed to check if Music is open: APPLE MUSIC ERROR: x");
        }
        other => panic!("unexpected result: {:?}", other),
    }
}

#[test]
fn lifecycle_over_signal_sequences() {
    // Running exactly when the last effective lifecycle event is a
    // successful start: walked over a few concrete signal histories.
    let mut c = fresh();
    c.complete_start(true);
    c.on_stop();
    assert!(c.start_needs_attempt());
    c.complete_start(false);
    assert!(!c.on_get_status());
    c.complete_start(true);
    assert!(c.on_get_status());
    c.on_cycle_error(&PipeBoomError::Io("disk".to_string()));
    assert!(!c.on_get_status());
}

use vstd::prelude::*;
use crate::models::{Song, SongDetails};
use crate::utils::{spec_truncated, truncate};

verus! {

/// Everything one presence update carries. The lines are truncated to 128
/// code points; the start timestamp places the track's beginning on the
/// wall clock.
#[derive(Debug, Clone, PartialEq)]
pub struct PresencePayload {
    /// Truncated artist, shown as the state line
    pub state_line: String,
    /// Truncated track name, shown as the details line
    pub details_line: String,
    /// Truncated album, shown under the large image
    pub large_text: String,
    /// Artwork reference for the large image
    pub large_image: String,
    /// Fixed small-image asset name
    pub small_image: String,
    /// Wall-clock second the track started playing
    pub start_timestamp: u64,
    /// First button: listen link
    pub button_label: String,
    /// Track link, album link or the canonical fallback
    pub button_url: String,
    /// Second button: share link
    pub second_button_label: String,
    pub second_button_url: String,
}

/// The link the listen button carries: the track link when present, else the
/// album link, else the canonical fallback address.
pub open spec fn spec_button_url(details: &SongDetails) -> Seq<char> {
    if details.song_url@.len() > 0 {
        details.song_url@
    } else if details.album_url@.len() > 0 {
        details.album_url@
    } else {
        "https://music.apple.com/"@
    }
}

/// What the payload for a playing track holds: artist, track name and album
/// each truncated to 128 code points, the start timestamp computed as the
/// wall clock minus the track's elapsed position (zero if the position
/// exceeds the clock), and the listen button preferring the track link,
/// then the album link, then the fixed fallback.
pub open spec fn presence_matches(r: &PresencePayload, song: &Song, details: &SongDetails, now: u64) -> bool {
    &&& r.state_line@ == spec_truncated(song.artist@, 128)
    &&& r.details_line@ == spec_truncated(song.name@, 128)
    &&& r.large_text@ == spec_truncated(song.album@, 128)
    &&& r.large_image@ == details.artwork@
    &&& r.small_image@ == "apple_music_logo"@
    &&& r.start_timestamp == if now >= song.player_position {
        now - song.player_position
    } else {
        0
    }
    &&& r.button_label@ == "Listen on Apple Music"@
    &&& r.button_url@ == spec_button_url(details)
    &&& r.second_button_label@ == "Share your AM status too!"@
    &&& r.second_button_url@ == "https://shadhaan.me/api/projects/pipeboom"@
}

/// The presence-timestamp law: whenever the wall clock stands at or past
/// the track's elapsed position — the one family of inputs a machine
/// integer can answer for — the payload's start is exactly their
/// difference, and the listen button carries the track link when one is
/// present, else the album link, else the fixed fallback. A position past
/// the clock is clamped to a start of zero by `presence_matches`.
pub proof fn lemma_presence_start(
    p: &PresencePayload,
    song: &Song,
    details: &SongDetails,
    now: u64,
)
    requires
        presence_matches(p, song, details, now),
        now >= song.player_position,
    ensures
        p.start_timestamp == now - song.player_position,
        p.button_url@ == spec_button_url(details),
{
}

/// Builds the presence payload pushed for a playing track.
pub fn build_presence(song: &Song, details: &SongDetails, now: u64) -> (r: PresencePayload)
    ensures
        presence_matches(&r, song, details, now),
{
    let start_timestamp: u64 = if now >= song.player_position {
        now - song.player_position
    } else {
        0
    };
    let button_url: String = if !details.song_url.as_str().is_empty() {
        details.song_url.clone()
    } else if !details.album_url.as_str().is_empty() {
        details.album_url.clone()
    } else {
        String::from_str("https://music.apple.com/")
    };
    PresencePayload {
        state_line: String::from_str(truncate(song.artist.as_str(), 128)),
        details_line: String::from_str(truncate(song.name.as_str(), 128)),
        large_text: String::from_str(truncate(song.album.as_str(), 128)),
        large_image: details.artwork.clone(),
        small_image: String::from_str("apple_music_logo"),
        start_timestamp,
        button_label: String::from_str("Listen on Apple Music"),
        button_url,
        second_button_label: String::from_str("Share your AM status too!"),
        second_button_url: String::from_str("https://shadhaan.me/api/projects/pipeboom"),
    }
}

} // verus!

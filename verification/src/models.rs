use vstd::prelude::*;

verus! {

/// Playback state of the media player, decoded from the lowercase token the
/// player's scripting interface reports. Unrecognized tokens map to
/// `Unknown`, never to an error.
#[derive(Debug, Copy, Clone, PartialEq, Eq, Structural)]
pub enum PlayerState {
    Playing,
    Paused,
    Stopped,
    FastForwarding,
    Rewinding,
    Unknown,
}

/// The token that stands for each player state on the wire and in the
/// scripting interface's output.
pub open spec fn state_token(s: PlayerState) -> Seq<char> {
    match s {
        PlayerState::Playing => "playing"@,
        PlayerState::Paused => "paused"@,
        PlayerState::Stopped => "stopped"@,
        PlayerState::FastForwarding => "fastForwarding"@,
        PlayerState::Rewinding => "rewinding"@,
        PlayerState::Unknown => "unknown"@,
    }
}

/// The player state a token decodes to: the five recognized tokens map to
/// their states, anything else to `Unknown`.
pub open spec fn state_of_token(t: Seq<char>) -> PlayerState {
    if t == "playing"@ {
        PlayerState::Playing
    } else if t == "paused"@ {
        PlayerState::Paused
    } else if t == "stopped"@ {
        PlayerState::Stopped
    } else if t == "fastForwarding"@ {
        PlayerState::FastForwarding
    } else if t == "rewinding"@ {
        PlayerState::Rewinding
    } else {
        PlayerState::Unknown
    }
}

impl PlayerState {
    /// The wire token for this state.
    pub fn to_token(self) -> (r: &'static str)
        ensures
            r@ == state_token(self),
    {
        match self {
            PlayerState::Playing => "playing",
            PlayerState::Paused => "paused",
            PlayerState::Stopped => "stopped",
            PlayerState::FastForwarding => "fastForwarding",
            PlayerState::Rewinding => "rewinding",
            PlayerState::Unknown => "unknown",
        }
    }

    /// Decodes a token; unrecognized tokens give `Unknown`.
    pub fn from_token(t: &str) -> (r: PlayerState)
        ensures
            r == state_of_token(t@),
    {
        if crate::utils::str_eq(t, "playing") {
            PlayerState::Playing
        } else if crate::utils::str_eq(t, "paused") {
            PlayerState::Paused
        } else if crate::utils::str_eq(t, "stopped") {
            PlayerState::Stopped
        } else if crate::utils::str_eq(t, "fastForwarding") {
            PlayerState::FastForwarding
        } else if crate::utils::str_eq(t, "rewinding") {
            PlayerState::Rewinding
        } else {
            PlayerState::Unknown
        }
    }
}

/// Encoding a state to its token and decoding it again gives the state back:
/// the five recognized tokens are distinct, and `Unknown`'s token is none of
/// them.
pub proof fn lemma_state_token_round_trip(s: PlayerState)
    ensures
        state_of_token(state_token(s)) == s,
{
    reveal_strlit("playing");
    reveal_strlit("paused");
    reveal_strlit("stopped");
    reveal_strlit("fastForwarding");
    reveal_strlit("rewinding");
    reveal_strlit("unknown");
    assert("playing"@.len() == 7);
    assert("paused"@.len() == 6);
    assert("stopped"@.len() == 7);
    assert("fastForwarding"@.len() == 14);
    assert("rewinding"@.len() == 9);
    assert("unknown"@.len() == 7);
    assert("playing"@[0] == 'p');
    assert("stopped"@[0] == 's');
    assert("unknown"@[0] == 'u');
}

/// A snapshot of the currently playing track. Durations and positions are
/// held as whole seconds.
#[derive(Debug, Clone, PartialEq)]
pub struct Song {
    pub id: u32,
    pub name: String,
    pub artist: String,
    pub album: String,
    pub album_artist: String,
    pub year: u32,
    pub duration: u64,
    pub player_position: u64,
}

/// A page of search results from the track-lookup service.
#[derive(Debug, Clone, PartialEq)]
pub struct ApiResults {
    pub result_count: u32,
    pub results: Vec<ApiResult>,
}

/// One search result from the track-lookup service.
#[derive(Debug, Clone, PartialEq)]
pub struct ApiResult {
    pub wrapper_type: String,
    pub artist_name: String,
    pub album_name: String,
    pub artwork_url: String,
    pub album_url: String,
    pub artist_url: Option<String>,
    pub song_url: Option<String>,
}

/// Resolved artwork reference and links for a track, with any `"` characters
/// stripped from each field.
#[derive(Debug, Clone, PartialEq)]
pub struct SongDetails {
    pub artwork: String,
    pub album_url: String,
    pub song_url: String,
}

impl SongDetails {
    /// Builds the details, stripping every `"` character from each field.
    pub fn new(artwork: String, album_url: String, song_url: String) -> (r: SongDetails)
        ensures
            r.artwork@ == artwork@.filter(|c: char| c != '"'),
            r.album_url@ == album_url@.filter(|c: char| c != '"'),
            r.song_url@ == song_url@.filter(|c: char| c != '"'),
    {
        SongDetails {
            artwork: crate::utils::remove_char(artwork.as_str(), '"'),
            album_url: crate::utils::remove_char(album_url.as_str(), '"'),
            song_url: crate::utils::remove_char(song_url.as_str(), '"'),
        }
    }
}

} // verus!

use vstd::prelude::*;
use crate::codec::{parse_quoted, read_quoted};
use crate::error::PipeBoomError;
use crate::models::{state_of_token, PlayerState, Song};
use crate::utils::{spec_trimmed, str_eq, trim_ws};

verus! {

/// The script text that asks whether an application process exists.
pub fn is_open_script(app_name: &str) -> (r: String)
    ensures
        r@ == "Application('System Events').processes['"@ + app_name@ + "'].exists()"@,
{
    let mut s = String::from_str("Application('System Events').processes['");
    s.append(app_name);
    s.append("'].exists()");
    s
}

/// The script text that asks for the player's state.
pub fn player_state_script(app_name: &str) -> (r: String)
    ensures
        r@ == "Application('"@ + app_name@ + "').playerState()"@,
{
    let mut s = String::from_str("Application('");
    s.append(app_name);
    s.append("').playerState()");
    s
}

/// The script text that asks for the current track's properties together
/// with the player position.
pub fn current_song_script(app_name: &str) -> (r: String)
    ensures
        r@ == "{ ...Application('"@ + app_name@ + "').currentTrack().properties(), playerPosition: Application('"@
            + app_name@ + "').playerPosition() }"@,
{
    let mut s = String::from_str("{ ...Application('");
    s.append(app_name);
    s.append("').currentTrack().properties(), playerPosition: Application('");
    s.append(app_name);
    s.append("').playerPosition() }");
    s
}

/// Wraps a script expression so that its value comes back as one JSON
/// document on standard output.
pub fn wrap_script_expression(script: &str) -> (r: String)
    ensures
        r@ == "(() => JSON.stringify("@ + script@ + "))();"@,
{
    let mut s = String::from_str("(() => JSON.stringify(");
    s.append(script);
    s.append("))();");
    s
}

/// Decodes the is-open script's output: the JSON token `true` or `false`,
/// surrounding whitespace allowed; anything else is a parse failure.
pub fn get_is_open(output: &str) -> (r: Result<bool, PipeBoomError>)
    ensures
        spec_trimmed(output@) == "true"@ ==> r == Ok::<bool, PipeBoomError>(true),
        spec_trimmed(output@) == "false"@ ==> r == Ok::<bool, PipeBoomError>(false),
        (spec_trimmed(output@) != "true"@ && spec_trimmed(output@) != "false"@) ==> (r matches Err(
            PipeBoomError::Parse(m),
        ) && m@ == "Failed to parse Apple Music script output"@),
{
    proof {
        reveal_strlit("true");
        reveal_strlit("false");
        assert("true"@.len() == 4);
        assert("false"@.len() == 5);
    }
    let t = trim_ws(output);
    if str_eq(t, "true") {
        Ok(true)
    } else if str_eq(t, "false") {
        Ok(false)
    } else {
        Err(PipeBoomError::Parse(String::from_str("Failed to parse Apple Music script output")))
    }
}

/// The state a player-state script output decodes to: its trimmed text must
/// be one whole JSON string literal, whose token names the state.
pub open spec fn spec_state_output(t: Seq<char>) -> Option<PlayerState> {
    match parse_quoted(t, 0) {
        Some((tok, j)) => if j == t.len() {
            Some(state_of_token(tok))
        } else {
            None
        },
        None => None,
    }
}

/// Decodes the player-state script's output: a JSON string literal holding
/// the state token, surrounding whitespace allowed. A well-formed token
/// that names no known state reads as `Unknown`, never as an error.
pub fn get_player_state(output: &str) -> (r: Result<PlayerState, PipeBoomError>)
    ensures
        spec_state_output(spec_trimmed(output@)) matches Some(st) ==> r == Ok::<
            PlayerState,
            PipeBoomError,
        >(st),
        spec_state_output(spec_trimmed(output@)) is None ==> (r matches Err(PipeBoomError::Parse(m))
            && m@ == "Failed to parse Apple Music script output"@),
{
    let t = trim_ws(output);
    let n = t.unicode_len();
    match read_quoted(t, 0) {
        Some((tok, j)) => {
            if j == n {
                Ok(PlayerState::from_token(tok.as_str()))
            } else {
                Err(
                    PipeBoomError::Parse(
                        String::from_str("Failed to parse Apple Music script output"),
                    ),
                )
            }
        },
        None => Err(
            PipeBoomError::Parse(String::from_str("Failed to parse Apple Music script output")),
        ),
    }
}

/// What running and decoding the current-track script produced: the script
/// itself failed; the player reported no usable track (no album set); the
/// track's fields parsed; or the document did not fit the track's shape.
#[derive(Debug, Clone, PartialEq)]
pub enum SongQueryOutcome {
    ScriptFailed(PipeBoomError),
    NoTrack,
    Parsed(Song),
    BadData(String),
}

/// Settles a current-track query. A script failure of the player kind is
/// taken as "no song" rather than an error; any other failure propagates;
/// a malformed track document is a parse error naming the trouble.
pub fn get_current_song(outcome: SongQueryOutcome) -> (r: Result<Option<Song>, PipeBoomError>)
    ensures
        outcome matches SongQueryOutcome::ScriptFailed(e) ==> ((e is AppleMusic ==> r == Ok::<
            Option<Song>,
            PipeBoomError,
        >(None)) && (!(e is AppleMusic) ==> (r matches Err(e2) && e2 == e))),
        outcome is NoTrack ==> r == Ok::<Option<Song>, PipeBoomError>(None),
        outcome matches SongQueryOutcome::Parsed(song) ==> (r matches Ok(s) && s matches Some(t)
            && t == song),
        outcome matches SongQueryOutcome::BadData(m) ==> (r matches Err(PipeBoomError::Parse(msg))
            && msg@ == "Failed to parse song data: "@ + m@),
{
    match outcome {
        SongQueryOutcome::ScriptFailed(e) => {
            match &e {
                PipeBoomError::AppleMusic(_) => Ok(None),
                _ => Err(e),
            }
        },
        SongQueryOutcome::NoTrack => Ok(None),
        SongQueryOutcome::Parsed(song) => Ok(Some(song)),
        SongQueryOutcome::BadData(m) => {
            let mut msg = String::from_str("Failed to parse song data: ");
            msg.append(m.as_str());
            Err(PipeBoomError::Parse(msg))
        },
    }
}

} // verus!

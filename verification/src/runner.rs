use vstd::prelude::*;
use crate::error::{spec_pipeboom_message, AppError, PipeBoomError};
use crate::ipc::{view_opt_string, IpcResponse};
use crate::itunes::{lemma_take_until_absent, lemma_take_until_at, take_until};
use crate::models::{PlayerState, Song};
use crate::utils::{all_digits, digits_val, parse_decimal_capped, spec_trimmed, trim_ws};

verus! {

/// What follows the first occurrence of `c` in `s`.
pub open spec fn spec_after_first(s: Seq<char>, c: char) -> Seq<char> {
    s.skip(take_until(s, c).len() as int + 1)
}

/// The major component of a trimmed version string: the digits before the
/// first dot.
pub open spec fn spec_major_part(t: Seq<char>) -> Seq<char> {
    take_until(t, '.')
}

/// The minor component of a trimmed version string: what stands between
/// the first dot and the second, or the end.
pub open spec fn spec_minor_part(t: Seq<char>) -> Seq<char> {
    take_until(spec_after_first(t, '.'), '.')
}

/// Whether the two version components parse: a nonempty run of digits for
/// the major part, digits (possibly none, read as zero) for the minor,
/// both of reasonable size.
pub open spec fn spec_version_parses(t: Seq<char>) -> bool {
    &&& spec_major_part(t).len() > 0
    &&& all_digits(spec_major_part(t))
    &&& digits_val(spec_major_part(t)) <= 1000000
    &&& all_digits(spec_minor_part(t))
    &&& digits_val(spec_minor_part(t)) <= 1000000
}

fn first_index_of(s: &str, c: char) -> (r: Option<usize>)
    ensures
        r matches Some(i) ==> (i as int) < s@.len() && s@[i as int] == c && (forall|k: int|
            0 <= k < i ==> s@[k] != c) && s@.contains(c) && take_until(s@, c) == s@.subrange(
            0,
            i as int,
        ),
        r is None ==> !s@.contains(c) && take_until(s@, c) == s@,
{
    let n = s.unicode_len();
    let mut i: usize = 0;
    while i < n
        invariant
            i <= n,
            n == s@.len(),
            forall|k: int| 0 <= k < i ==> s@[k] != c,
        decreases n - i,
    {
        if s.get_char(i) == c {
            proof {
                lemma_take_until_at(s@, c, i as int);
                assert(s@.contains(c)) by {
                    assert(s@[i as int] == c);
                }
            }
            return Some(i);
        }
        i += 1;
    }
    proof {
        if s@.contains(c) {
            let j = choose|j: int| 0 <= j < s@.len() && s@[j] == c;
            assert(s@[j] != c);
        }
        lemma_take_until_absent(s@, c);
    }
    None
}

/// Parses the operating system's version string into its major and minor
/// components. A string without a dot, or whose components are not plain
/// numbers, is refused with a message naming the trimmed input.
pub fn parse_macos_version(raw: &str) -> (r: Result<(u64, u64), AppError>)
    ensures
        !spec_trimmed(raw@).contains('.') ==> (r matches Err(AppError::Parse(m)) && m@
            == "Unexpected macOS version format: "@ + spec_trimmed(raw@)),
        spec_trimmed(raw@).contains('.') ==> (if spec_version_parses(spec_trimmed(raw@)) {
            r matches Ok(v) && v.0 == digits_val(spec_major_part(spec_trimmed(raw@))) && v.1
                == digits_val(spec_minor_part(spec_trimmed(raw@)))
        } else {
            r matches Err(AppError::Parse(m)) && m@ == "Unexpected macOS version format: "@
                + spec_trimmed(raw@)
        }),
{
    let t = trim_ws(raw);
    let n = t.unicode_len();
    match first_index_of(t, '.') {
        None => {
            let mut m = String::from_str("Unexpected macOS version format: ");
            m.append(t);
            Err(AppError::Parse(m))
        },
        Some(i) => {
            let maj_s = t.substring_char(0, i);
            let rest = t.substring_char(i + 1, n);
            proof {
                assert(rest@ =~= spec_after_first(t@, '.'));
            }
            let rn = rest.unicode_len();
            let min_s: &str = match first_index_of(rest, '.') {
                Some(j) => rest.substring_char(0, j),
                None => rest,
            };
            let major = match parse_decimal_capped(maj_s, 1000000) {
                Some(v) => v,
                None => {
                    let mut m = String::from_str("Unexpected macOS version format: ");
                    m.append(t);
                    return Err(AppError::Parse(m));
                },
            };
            let minor = if min_s.unicode_len() == 0 {
                0u64
            } else {
                match parse_decimal_capped(min_s, 1000000) {
                    Some(v) => v,
                    None => {
                        let mut m = String::from_str("Unexpected macOS version format: ");
                        m.append(t);
                        return Err(AppError::Parse(m));
                    },
                }
            };
            proof {
                if min_s@.len() == 0 {
                    assert(all_digits(min_s@));
                    assert(digits_val(min_s@) == 0);
                }
            }
            Ok((major, minor))
        },
    }
}

/// The media player the daemon drives, by operating system version: the
/// one named Music from version 10.15 on, iTunes before that.
pub fn app_name_for_version(major: u64, minor: u64) -> (r: &'static str)
    ensures
        (major > 10 || (major == 10 && minor >= 15)) ==> r@ == "Music"@,
        !(major > 10 || (major == 10 && minor >= 15)) ==> r@ == "iTunes"@,
{
    if major > 10 || (major == 10 && minor >= 15) {
        "Music"
    } else {
        "iTunes"
    }
}

/// `false` unless the query succeeded with `true`.
pub open spec fn spec_ok_or_false(r: &Result<bool, PipeBoomError>) -> bool {
    match r {
        Ok(b) => *b,
        Err(_) => false,
    }
}

/// `false` unless a reply arrived, then the reply.
pub open spec fn spec_some_or_false(o: &Option<bool>) -> bool {
    match o {
        Some(b) => *b,
        None => false,
    }
}

/// The reply to a `Start` command: success exactly when the control signal
/// reached the Controller; the send failure is reported as an error
/// message, never as a crash.
pub fn start_response(send_ok: bool) -> (r: IpcResponse)
    ensures
        send_ok ==> r == IpcResponse::Success,
        !send_ok ==> (r matches IpcResponse::Error(m) && m@
            == "Failed to send start command to player controller"@),
{
    if send_ok {
        IpcResponse::Success
    } else {
        IpcResponse::Error(String::from_str("Failed to send start command to player controller"))
    }
}

/// The reply to a `Stop` command, under the same policy as `start_response`.
pub fn stop_response(send_ok: bool) -> (r: IpcResponse)
    ensures
        send_ok ==> r == IpcResponse::Success,
        !send_ok ==> (r matches IpcResponse::Error(m) && m@
            == "Failed to send stop command to player controller"@),
{
    if send_ok {
        IpcResponse::Success
    } else {
        IpcResponse::Error(String::from_str("Failed to send stop command to player controller"))
    }
}

/// The player state used in a current-song reply: the queried state, or
/// `Unknown` when that query failed.
pub fn state_or_unknown(state: &Result<PlayerState, PipeBoomError>) -> (r: PlayerState)
    ensures
        state matches Ok(st) ==> r == st,
        state is Err ==> r == PlayerState::Unknown,
{
    match state {
        Ok(st) => *st,
        Err(_) => PlayerState::Unknown,
    }
}

/// The reply to a `CurrentSong` command. A present track fills all fields
/// and carries `state`; an absent track replies with empty fields and
/// `Stopped`; an adapter failure is surfaced verbatim as an error reply.
pub fn current_song_response(
    song: &Result<Option<Song>, PipeBoomError>,
    state: PlayerState,
) -> (r: IpcResponse)
    ensures
        song matches Ok(s) ==> (s matches Some(track) ==> (r matches IpcResponse::CurrentSong {
            title,
            artist,
            album,
            state: st,
        } && view_opt_string(&title) == Some(track.name@) && view_opt_string(&artist) == Some(
            track.artist@,
        ) && view_opt_string(&album) == Some(track.album@) && st == state)),
        song matches Ok(s) ==> (s is None ==> r == (IpcResponse::CurrentSong {
            title: None,
            artist: None,
            album: None,
            state: PlayerState::Stopped,
        })),
        song matches Err(e) ==> (r matches IpcResponse::Error(m) && m@
            == "Failed to get current song: "@ + spec_pipeboom_message(e)),
{
    match song {
        Ok(s) => match s {
            Some(track) => IpcResponse::CurrentSong {
                title: Some(track.name.clone()),
                artist: Some(track.artist.clone()),
                album: Some(track.album.clone()),
                state,
            },
            None => IpcResponse::CurrentSong {
                title: None,
                artist: None,
                album: None,
                state: PlayerState::Stopped,
            },
        },
        Err(e) => {
            let mut m = String::from_str("Failed to get current song: ");
            m.append(e.message().as_str());
            IpcResponse::Error(m)
        },
    }
}

/// The reply to a `Status` command: always a `Status`, never an error. A
/// failed liveness query reads as `false` rather than aborting the reply,
/// and a missing Controller reply reads as not running. The
/// `discord_connected` field deliberately mirrors `discord_open`, as the
/// daemon has always reported it, rather than the Controller's own
/// connection flag.
pub fn status_response(
    discord_open: &Result<bool, PipeBoomError>,
    music_open: &Result<bool, PipeBoomError>,
    running_reply: &Option<bool>,
) -> (r: IpcResponse)
    ensures
        r matches IpcResponse::Status {
            running,
            discord_connected,
            discord_open: d_open,
            music_app_open: m_open,
        } && running == spec_some_or_false(running_reply) && d_open == spec_ok_or_false(
            discord_open,
        ) && discord_connected == spec_ok_or_false(discord_open) && m_open == spec_ok_or_false(
            music_open,
        ),
{
    let d_open = match discord_open {
        Ok(b) => *b,
        Err(_) => false,
    };
    let m_open = match music_open {
        Ok(b) => *b,
        Err(_) => false,
    };
    let running = match running_reply {
        Some(b) => *b,
        None => false,
    };
    IpcResponse::Status {
        running,
        discord_connected: d_open,
        discord_open: d_open,
        music_app_open: m_open,
    }
}

} // verus!

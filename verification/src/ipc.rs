use vstd::prelude::*;
use crate::models::PlayerState;

verus! {

/// The wire vocabulary understood by the daemon.
#[derive(Debug, Clone, Copy, PartialEq, Eq, Structural)]
pub enum IpcCommand {
    /// Start the presence bridge
    Start,
    /// Stop the presence bridge
    Stop,
    /// Get current song details
    CurrentSong,
    /// Get current daemon status
    Status,
    /// Terminate the daemon
    Shutdown,
}

/// The request envelope: a single command per connection.
#[derive(Debug, Clone, Copy, PartialEq, Eq, Structural)]
pub struct IpcMessage {
    pub command: IpcCommand,
}

/// The response envelope, serialized as tagged JSON on the wire.
#[derive(Debug, Clone, PartialEq)]
pub enum IpcResponse {
    Success,
    Error(String),
    CurrentSong {
        title: Option<String>,
        artist: Option<String>,
        album: Option<String>,
        state: PlayerState,
    },
    Status {
        running: bool,
        discord_connected: bool,
        discord_open: bool,
        music_app_open: bool,
    },
}

/// The mathematical image of a response: each string field as its character
/// sequence. Contracts about the wire format speak of this type.
pub enum RespV {
    Success,
    Error(Seq<char>),
    CurrentSong {
        title: Option<Seq<char>>,
        artist: Option<Seq<char>>,
        album: Option<Seq<char>>,
        state: PlayerState,
    },
    Status {
        running: bool,
        discord_connected: bool,
        discord_open: bool,
        music_app_open: bool,
    },
}

/// The view of an optional string field: its character sequence, if any.
pub open spec fn view_opt_string(o: &Option<String>) -> Option<Seq<char>> {
    match o {
        Some(t) => Some(t@),
        None => None,
    }
}

impl View for IpcResponse {
    type V = RespV;

    open spec fn view(&self) -> RespV {
        match self {
            IpcResponse::Success => RespV::Success,
            IpcResponse::Error(m) => RespV::Error(m@),
            IpcResponse::CurrentSong { title, artist, album, state } => RespV::CurrentSong {
                title: view_opt_string(title),
                artist: view_opt_string(artist),
                album: view_opt_string(album),
                state: *state,
            },
            IpcResponse::Status { running, discord_connected, discord_open, music_app_open } => (
            RespV::Status {
                running: *running,
                discord_connected: *discord_connected,
                discord_open: *discord_open,
                music_app_open: *music_app_open,
            }),
        }
    }
}

} // verus!

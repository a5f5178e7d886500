use vstd::prelude::*;

verus! {

pub type PipeBoomResult<T> = Result<T, PipeBoomError>;

/// The daemon's error taxonomy. Each kind carries a human-readable message;
/// no structured codes cross the wire.
#[derive(Debug, PartialEq, Eq, PartialOrd, Ord)]
pub enum PipeBoomError {
    /// Errors due to the media-player application
    AppleMusic(String),
    /// Errors from the presence service
    Discord(String),
    /// Errors from the scripting interface
    Osascript(String),
    /// Errors in configuration
    Config(String),
    /// Errors in parsing data
    Parse(String),
    /// IO errors
    Io(String),
    /// Network errors
    Network(String),
    /// General internal errors
    Internal(String),
    /// Errors in the local IPC bridge
    Ipc(String),
    /// Errors during setup or uninstallation
    Setup(String),
}

impl Clone for PipeBoomError {
    /// A clone carries the same kind and message.
    fn clone(&self) -> (r: Self)
        ensures
            r == *self,
    {
        match self {
            PipeBoomError::AppleMusic(m) => PipeBoomError::AppleMusic(m.clone()),
            PipeBoomError::Discord(m) => PipeBoomError::Discord(m.clone()),
            PipeBoomError::Osascript(m) => PipeBoomError::Osascript(m.clone()),
            PipeBoomError::Config(m) => PipeBoomError::Config(m.clone()),
            PipeBoomError::Parse(m) => PipeBoomError::Parse(m.clone()),
            PipeBoomError::Io(m) => PipeBoomError::Io(m.clone()),
            PipeBoomError::Network(m) => PipeBoomError::Network(m.clone()),
            PipeBoomError::Internal(m) => PipeBoomError::Internal(m.clone()),
            PipeBoomError::Ipc(m) => PipeBoomError::Ipc(m.clone()),
            PipeBoomError::Setup(m) => PipeBoomError::Setup(m.clone()),
        }
    }
}

/// The recoverable kinds: presence, player and network errors. All others
/// are fatal for the current run.
pub open spec fn spec_recoverable(e: &PipeBoomError) -> bool {
    e is Discord || e is AppleMusic || e is Network
}

/// The message payload an error carries, its kind prefix aside.
pub open spec fn spec_payload(e: &PipeBoomError) -> Seq<char> {
    match e {
        PipeBoomError::AppleMusic(m) => m@,
        PipeBoomError::Discord(m) => m@,
        PipeBoomError::Osascript(m) => m@,
        PipeBoomError::Config(m) => m@,
        PipeBoomError::Parse(m) => m@,
        PipeBoomError::Io(m) => m@,
        PipeBoomError::Network(m) => m@,
        PipeBoomError::Internal(m) => m@,
        PipeBoomError::Ipc(m) => m@,
        PipeBoomError::Setup(m) => m@,
    }
}

/// Whether two errors are of the same kind.
pub open spec fn spec_same_kind(a: &PipeBoomError, b: &PipeBoomError) -> bool {
    match a {
        PipeBoomError::AppleMusic(_) => b is AppleMusic,
        PipeBoomError::Discord(_) => b is Discord,
        PipeBoomError::Osascript(_) => b is Osascript,
        PipeBoomError::Config(_) => b is Config,
        PipeBoomError::Parse(_) => b is Parse,
        PipeBoomError::Io(_) => b is Io,
        PipeBoomError::Network(_) => b is Network,
        PipeBoomError::Internal(_) => b is Internal,
        PipeBoomError::Ipc(_) => b is Ipc,
        PipeBoomError::Setup(_) => b is Setup,
    }
}

impl PipeBoomError {
    /// A recoverable error is logged and the current cycle skipped; any
    /// other kind forces a controlled stop. Exactly the player, presence
    /// and network kinds are recoverable.
    pub fn is_recoverable(&self) -> (r: bool)
        ensures
            r == spec_recoverable(self),
    {
        match self {
            PipeBoomError::Discord(_) => true,
            PipeBoomError::AppleMusic(_) => true,
            PipeBoomError::Network(_) => true,
            _ => false,
        }
    }

    /// The same kind of error, carrying `message` in place of its own.
    pub fn with_message(&self, message: String) -> (r: PipeBoomError)
        ensures
            spec_same_kind(&r, self),
            spec_payload(&r) == message@,
            spec_recoverable(&r) == spec_recoverable(self),
    {
        match self {
            PipeBoomError::AppleMusic(_) => PipeBoomError::AppleMusic(message),
            PipeBoomError::Discord(_) => PipeBoomError::Discord(message),
            PipeBoomError::Osascript(_) => PipeBoomError::Osascript(message),
            PipeBoomError::Config(_) => PipeBoomError::Config(message),
            PipeBoomError::Parse(_) => PipeBoomError::Parse(message),
            PipeBoomError::Io(_) => PipeBoomError::Io(message),
            PipeBoomError::Network(_) => PipeBoomError::Network(message),
            PipeBoomError::Internal(_) => PipeBoomError::Internal(message),
            PipeBoomError::Ipc(_) => PipeBoomError::Ipc(message),
            PipeBoomError::Setup(_) => PipeBoomError::Setup(message),
        }
    }

    /// The message this error prints, kind prefix included.
    pub fn message(&self) -> (r: String)
        ensures
            r@ == spec_pipeboom_message(self),
    {
        let (prefix, msg): (&str, &String) = match self {
            PipeBoomError::AppleMusic(m) => ("APPLE MUSIC ERROR: ", m),
            PipeBoomError::Discord(m) => ("DISCORD ERROR: ", m),
            PipeBoomError::Osascript(m) => ("OSASCRIPT ERROR: ", m),
            PipeBoomError::Config(m) => ("CONFIGURATION ERROR: ", m),
            PipeBoomError::Parse(m) => ("PARSE ERROR: ", m),
            PipeBoomError::Io(m) => ("IO ERROR: ", m),
            PipeBoomError::Network(m) => ("NETWORK ERROR: ", m),
            PipeBoomError::Internal(m) => ("INTERNAL ERROR: ", m),
            PipeBoomError::Ipc(m) => ("IPC ERROR: ", m),
            PipeBoomError::Setup(m) => ("SETUP ERROR: ", m),
        };
        let mut out = String::from_str(prefix);
        out.append(msg.as_str());
        out
    }
}

/// The full message of each error kind: its prefix followed by its payload.
pub open spec fn spec_pipeboom_message(e: &PipeBoomError) -> Seq<char> {
    match e {
        PipeBoomError::AppleMusic(m) => "APPLE MUSIC ERROR: "@ + m@,
        PipeBoomError::Discord(m) => "DISCORD ERROR: "@ + m@,
        PipeBoomError::Osascript(m) => "OSASCRIPT ERROR: "@ + m@,
        PipeBoomError::Config(m) => "CONFIGURATION ERROR: "@ + m@,
        PipeBoomError::Parse(m) => "PARSE ERROR: "@ + m@,
        PipeBoomError::Io(m) => "IO ERROR: "@ + m@,
        PipeBoomError::Network(m) => "NETWORK ERROR: "@ + m@,
        PipeBoomError::Internal(m) => "INTERNAL ERROR: "@ + m@,
        PipeBoomError::Ipc(m) => "IPC ERROR: "@ + m@,
        PipeBoomError::Setup(m) => "SETUP ERROR: "@ + m@,
    }
}

pub type AppResult<T> = Result<T, AppError>;

/// Error type of the utility layer.
#[derive(Debug, Clone, PartialEq)]
pub enum AppError {
    Discord(String),
    AppleMusic(String),
    Config(String),
    Parse(String),
    Io(String),
    Network(String),
    Internal(String),
}

impl AppError {
    /// The message this error prints, kind prefix included.
    pub fn message(&self) -> (r: String)
        ensures
            r@ == spec_app_message(self),
    {
        let (prefix, msg): (&str, &String) = match self {
            AppError::Discord(m) => ("Discord error: ", m),
            AppError::AppleMusic(m) => ("Apple Music error: ", m),
            AppError::Config(m) => ("Configuration error: ", m),
            AppError::Parse(m) => ("Parse error: ", m),
            AppError::Io(m) => ("IO error: ", m),
            AppError::Network(m) => ("Network error: ", m),
            AppError::Internal(m) => ("Internal error: ", m),
        };
        let mut out = String::from_str(prefix);
        out.append(msg.as_str());
        out
    }
}

/// The full message of each error kind: its prefix followed by its payload.
pub open spec fn spec_app_message(e: &AppError) -> Seq<char> {
    match e {
        AppError::Discord(m) => "Discord error: "@ + m@,
        AppError::AppleMusic(m) => "Apple Music error: "@ + m@,
        AppError::Config(m) => "Configuration error: "@ + m@,
        AppError::Parse(m) => "Parse error: "@ + m@,
        AppError::Io(m) => "IO error: "@ + m@,
        AppError::Network(m) => "Network error: "@ + m@,
        AppError::Internal(m) => "Internal error: "@ + m@,
    }
}

} // verus!

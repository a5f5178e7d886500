use vstd::prelude::*;
use crate::ipc::IpcCommand;
use crate::utils::{all_digits, digits_val, parse_decimal_capped};

verus! {

/// Log verbosity levels the daemon accepts.
#[derive(Debug, Copy, Clone, PartialEq, Eq, Structural)]
pub enum LogLevel {
    Error,
    Warn,
    Info,
    Debug,
    Trace,
}

/// What the command line asks for.
#[derive(Debug, Clone, Copy, PartialEq, Eq, Structural)]
pub enum CliCommand {
    /// Install the auto-start registration and start the service
    Setup,
    /// Remove the auto-start registration
    Uninstall,
    /// Send one service-control command to the running daemon
    Service(IpcCommand),
}

/// The parsed command line, as plain values. The flags override the
/// matching defaults; no subcommand means "run the daemon".
#[derive(Debug, Clone, PartialEq)]
pub struct Cli {
    pub command: Option<CliCommand>,
    pub poll_interval_secs: u64,
    pub log_level: LogLevel,
    pub max_log_size: u64,
    pub socket_path: String,
}

/// The daemon's settings: the presence application id, the poll interval,
/// logging bounds, and the socket file's name. The caller resolves the
/// socket file's directory.
#[derive(Debug, Clone, PartialEq)]
pub struct Config {
    pub discord_app_id: String,
    pub poll_interval_secs: u64,
    pub log_level: LogLevel,
    pub max_log_size: u64,
    pub socket_path: String,
}

impl Default for Config {
    /// The defaults: a one-second poll, info-level logging, a twenty
    /// megabyte log bound, and the fixed socket file name.
    fn default() -> (r: Config)
        ensures
            r.discord_app_id@ == "996864734957670452"@,
            r.poll_interval_secs == 1,
            r.log_level == LogLevel::Info,
            r.max_log_size == 20 * 1024 * 1024,
            r.socket_path@ == "pipeboom.sock"@,
    {
        Config {
            discord_app_id: String::from_str("996864734957670452"),
            poll_interval_secs: 1,
            log_level: LogLevel::Info,
            max_log_size: 20971520,
            socket_path: String::from_str("pipeboom.sock"),
        }
    }
}

/// The digits of an interval numeral: a single leading plus sign, if one
/// stands there, is not part of them.
pub open spec fn spec_interval_digits(s: Seq<char>) -> Seq<char> {
    if s.len() > 0 && s[0] == '+' {
        s.drop_first()
    } else {
        s
    }
}

/// Parses the poll-interval flag: a decimal count of seconds with an
/// optional leading plus sign, which must lie between 1 and 10. Anything
/// that is not a small decimal number (a value up to 255) is refused as
/// not a number; a number outside the bound is refused as out of range.
pub fn parse_duration(s: &str) -> (r: Result<u64, String>)
    ensures
        r matches Ok(v) ==> spec_interval_digits(s@).len() > 0 && all_digits(
            spec_interval_digits(s@),
        ) && digits_val(spec_interval_digits(s@)) == v && 1 <= v <= 10,
        (spec_interval_digits(s@).len() > 0 && all_digits(spec_interval_digits(s@)) && 1
            <= digits_val(spec_interval_digits(s@)) <= 10) ==> (r matches Ok(v) && v == digits_val(
            spec_interval_digits(s@),
        )),
        r matches Err(m) ==> (((spec_interval_digits(s@).len() == 0 || !all_digits(
            spec_interval_digits(s@),
        ) || digits_val(spec_interval_digits(s@)) > 255) && m@ == "Not a number"@) || ((
        spec_interval_digits(s@).len() > 0 && all_digits(spec_interval_digits(s@)) && digits_val(
            spec_interval_digits(s@),
        ) <= 255 && !(1 <= digits_val(spec_interval_digits(s@)) <= 10)) && m@
            == "Must be between 1-10"@)),
{
    let n = s.unicode_len();
    let body: &str = if n > 0 && s.get_char(0) == '+' {
        let b = s.substring_char(1, n);
        proof {
            assert(b@ =~= s@.drop_first());
        }
        b
    } else {
        s
    };
    match parse_decimal_capped(body, 255) {
        Some(v) => {
            if 1 <= v && v <= 10 {
                Ok(v)
            } else {
                Err(String::from_str("Must be between 1-10"))
            }
        },
        None => Err(String::from_str("Not a number")),
    }
}

} // verus!

use vstd::prelude::*;

verus! {

/// The service name the auto-start registration goes by.
pub const BUNDLE_ID: &'static str = "com.shadhaan.pipeboom";

/// The auto-start registration document for the daemon: a property list
/// that labels the service, points at the installed binary, keeps it
/// alive, and routes its output into the log files under `home`.
pub fn launch_agent_plist(service_name: &str, install_dir: &str, home: &str) -> (r: String)
    ensures
        r@ == "<?xml version=\"1.0\" encoding=\"UTF-8\"?>\n<!DOCTYPE plist PUBLIC \"-//Apple//DTD PLIST 1.0//EN\" \"http://www.apple.com/DTDs/PropertyList-1.0.dtd\">\n<plist version=\"1.0\">\n<dict>\n    <key>Label</key>\n    <string>"@
            + service_name@
            + "</string>\n    <key>ProgramArguments</key>\n    <array>\n        <string>"@
            + install_dir@
            + "/pipeboom</string>\n    </array>\n    <key>RunAtLoad</key>\n    <true/>\n    <key>KeepAlive</key>\n    <true/>\n    <key>StandardOutPath</key>\n    <string>"@
            + home@ + "/Library/Logs/pipeboom.log</string>\n    <key>StandardErrorPath</key>\n    <string>"@
            + home@ + "/Library/Logs/pipeboom.err</string>\n    <key>WorkingDirectory</key>\n    <string>"@
            + home@ + "</string>\n</dict>\n</plist>\n"@,
{
    let mut s = String::from_str(
        "<?xml version=\"1.0\" encoding=\"UTF-8\"?>\n<!DOCTYPE plist PUBLIC \"-//Apple//DTD PLIST 1.0//EN\" \"http://www.apple.com/DTDs/PropertyList-1.0.dtd\">\n<plist version=\"1.0\">\n<dict>\n    <key>Label</key>\n    <string>",
    );
    s.append(service_name);
    s.append("</string>\n    <key>ProgramArguments</key>\n    <array>\n        <string>");
    s.append(install_dir);
    s.append(
        "/pipeboom</string>\n    </array>\n    <key>RunAtLoad</key>\n    <true/>\n    <key>KeepAlive</key>\n    <true/>\n    <key>StandardOutPath</key>\n    <string>",
    );
    s.append(home);
    s.append("/Library/Logs/pipeboom.log</string>\n    <key>StandardErrorPath</key>\n    <string>");
    s.append(home);
    s.append("/Library/Logs/pipeboom.err</string>\n    <key>WorkingDirectory</key>\n    <string>");
    s.append(home);
    s.append("</string>\n</dict>\n</plist>\n");
    s
}

/// Where the auto-start registration file lives for a service.
pub fn plist_path(home: &str, service_name: &str) -> (r: String)
    ensures
        r@ == home@ + "/Library/LaunchAgents/"@ + service_name@ + ".plist"@,
{
    let mut s = String::from_str(home);
    s.append("/Library/LaunchAgents/");
    s.append(service_name);
    s.append(".plist");
    s
}

/// Where the daemon's general log lives.
pub fn log_path(home: &str) -> (r: String)
    ensures
        r@ == home@ + "/Library/Logs/pipeboom.log"@,
{
    let mut s = String::from_str(home);
    s.append("/Library/Logs/pipeboom.log");
    s
}

/// Where the daemon's error log lives.
pub fn err_log_path(home: &str) -> (r: String)
    ensures
        r@ == home@ + "/Library/Logs/pipeboom.err"@,
{
    let mut s = String::from_str(home);
    s.append("/Library/Logs/pipeboom.err");
    s
}

/// Whether a log file of `size` bytes exceeds the configured bound, given
/// in whole megabytes, and must be removed before logging starts.
pub fn should_rotate(size: u64, max_log_size_mb: u64) -> (r: bool)
    ensures
        r == ((size as int) > (max_log_size_mb as int) * 1048576),
{
    if max_log_size_mb > 17592186044415 {
        proof {
            assert((max_log_size_mb as int) * 1048576 > u64::MAX as int) by (nonlinear_arith)
                requires
                    max_log_size_mb > 17592186044415,
            ;
        }
        false
    } else {
        size > max_log_size_mb * 1048576
    }
}

} // verus!

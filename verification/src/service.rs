//! Values of the background-service collaborator that are pure functions
//! of their inputs: the service label, the per-user paths, the service
//! descriptor written at install time, and the judgement of a stop
//! request's outcome. The file system and the service manager themselves
//! are driven outside the library.

use crate::parser::{contains_seq, contains_substring};
use vstd::prelude::*;

verus! {

/// The label under which the background service is registered.
pub fn service_label() -> (s: &'static str)
    ensures
        s@ == "com.wassimk.elgato-autolight"@,
{
    "com.wassimk.elgato-autolight"
}

/// The configuration file path under the given home directory.
pub fn config_path_in(home: &str) -> (p: String)
    ensures
        p@ == home@ + "/.config/elgato-autolight/config.toml"@,
{
    let mut p = String::from_str(home);
    p.append("/.config/elgato-autolight/config.toml");
    p
}

/// The service-descriptor path under the given home directory.
pub fn plist_path_in(home: &str) -> (p: String)
    ensures
        p@ == home@ + "/Library/LaunchAgents/com.wassimk.elgato-autolight.plist"@,
{
    let mut p = String::from_str(home);
    p.append("/Library/LaunchAgents/com.wassimk.elgato-autolight.plist");
    p
}

/// The log directory under the given home directory.
pub fn log_dir_in(home: &str) -> (p: String)
    ensures
        p@ == home@ + "/Library/Logs/elgato-autolight"@,
{
    let mut p = String::from_str(home);
    p.append("/Library/Logs/elgato-autolight");
    p
}

/// The service descriptor for the given binary path and log directory:
/// it runs `<binary> start`, is kept alive, and sends the standard output
/// and error streams to files under the log directory.
pub open spec fn spec_plist(binary_path: Seq<char>, log_dir: Seq<char>) -> Seq<char> {
    "<?xml version=\"1.0\" encoding=\"UTF-8\"?>\n<!DOCTYPE plist PUBLIC \"-//Apple//DTD PLIST 1.0//EN\" \"http://www.apple.com/DTDs/PropertyList-1.0.dtd\">\n<plist version=\"1.0\">\n<dict>\n    <key>Label</key>\n    <string>com.wassimk.elgato-autolight</string>\n    <key>ProgramArguments</key>\n    <array>\n        <string>"@
        + binary_path
        + "</string>\n        <string>start</string>\n    </array>\n    <key>KeepAlive</key>\n    <true/>\n    <key>StandardOutPath</key>\n    <string>"@
        + log_dir + "/stdout.log"@
        + "</string>\n    <key>StandardErrorPath</key>\n    <string>"@
        + log_dir + "/stderr.log"@
        + "</string>\n    <key>EnvironmentVariables</key>\n    <dict>\n        <key>PATH</key>\n        <string>/opt/homebrew/bin:/usr/local/bin:/usr/bin:/bin</string>\n    </dict>\n</dict>\n</plist>"@
}

/// Renders the service descriptor installed for the binary at
/// `binary_path`, with log files under `log_dir`.
pub fn generate_plist(binary_path: &str, log_dir: &str) -> (s: String)
    ensures
        s@ == spec_plist(binary_path@, log_dir@),
{
    let mut s = String::from_str(
        "<?xml version=\"1.0\" encoding=\"UTF-8\"?>\n<!DOCTYPE plist PUBLIC \"-//Apple//DTD PLIST 1.0//EN\" \"http://www.apple.com/DTDs/PropertyList-1.0.dtd\">\n<plist version=\"1.0\">\n<dict>\n    <key>Label</key>\n    <string>com.wassimk.elgato-autolight</string>\n    <key>ProgramArguments</key>\n    <array>\n        <string>",
    );
    s.append(binary_path);
    s.append(
        "</string>\n        <string>start</string>\n    </array>\n    <key>KeepAlive</key>\n    <true/>\n    <key>StandardOutPath</key>\n    <string>",
    );
    s.append(log_dir);
    s.append("/stdout.log");
    s.append("</string>\n    <key>StandardErrorPath</key>\n    <string>");
    s.append(log_dir);
    s.append("/stderr.log");
    s.append(
        "</string>\n    <key>EnvironmentVariables</key>\n    <dict>\n        <key>PATH</key>\n        <string>/opt/homebrew/bin:/usr/local/bin:/usr/bin:/bin</string>\n    </dict>\n</dict>\n</plist>",
    );
    proof {
        assert(s@ =~= spec_plist(binary_path@, log_dir@));
    }
    s
}

/// Outcome of asking the service manager to stop the service.
#[derive(Clone, Copy, PartialEq, Eq, Structural, Debug)]
pub enum StopOutcome {
    /// The stop request succeeded: the service was running and is stopped.
    Stopped,
    /// The service was not running or not registered — not an error.
    NotRunning,
    /// The stop request failed for another reason.
    Failed,
}

/// The outcome of a stop request, judged from the service manager's exit
/// status and its diagnostic output: a failure whose diagnostics say the
/// service does not exist means the service was simply not running.
pub open spec fn spec_stop_outcome(success: bool, diag: Seq<char>) -> StopOutcome {
    if success {
        StopOutcome::Stopped
    } else if contains_seq(diag, "No such process"@) || contains_seq(
        diag,
        "Could not find service"@,
    ) {
        StopOutcome::NotRunning
    } else {
        StopOutcome::Failed
    }
}

/// Judges the outcome of a stop request from the service manager's exit
/// status and diagnostic output.
pub fn classify_stop_result(success: bool, diag: &str) -> (o: StopOutcome)
    ensures
        o == spec_stop_outcome(success, diag@),
{
    if success {
        StopOutcome::Stopped
    } else if contains_substring(diag, "No such process") || contains_substring(
        diag,
        "Could not find service",
    ) {
        StopOutcome::NotRunning
    } else {
        StopOutcome::Failed
    }
}

} // verus!

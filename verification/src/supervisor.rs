//! The log-streaming source.
//!
//! The supervisor spawns the system log facility in streaming mode,
//! filtered by a fixed predicate to the camera subsystem's power messages,
//! captures only its standard output and discards its error stream. The
//! spawning, reading and terminating of the subprocess are outside work
//! driven by the monitor loop's actions; what is derived here is the fixed
//! program name and argument list of every spawn.

use vstd::prelude::*;

verus! {

/// The program the log-streaming subprocess runs.
pub fn log_stream_program() -> (p: &'static str)
    ensures
        p@ == "log"@,
{
    "log"
}

/// The fixed arguments of every log-stream spawn: stream the log, filtered
/// to the camera subsystem's power messages.
pub open spec fn spec_log_stream_args() -> Seq<Seq<char>> {
    seq![
        "stream"@,
        "--predicate"@,
        "subsystem == \"com.apple.UVCExtension\" and composedMessage contains \"Post PowerLog\""@,
    ]
}

/// Builds the argument list with which the log-streaming subprocess is
/// spawned. The list is the same for every spawn attempt.
pub fn log_stream_args() -> (args: Vec<String>)
    ensures
        args.deep_view() == spec_log_stream_args(),
{
    let mut args: Vec<String> = Vec::new();
    args.push(String::from_str("stream"));
    args.push(String::from_str("--predicate"));
    args.push(String::from_str(
        "subsystem == \"com.apple.UVCExtension\" and composedMessage contains \"Post PowerLog\"",
    ));
    proof {
        assert(args.deep_view() =~~= spec_log_stream_args());
    }
    args
}

} // verus!

//! Watches a stream of operating-system log lines for camera power markers
//! and decides how to drive an external light-control program.
//!
//! The crate holds the decision logic of the monitor: classifying log lines,
//! deriving the argument list of each light-control invocation, and the
//! state machine that governs spawning, backing off and shutting down the
//! log-streaming subprocess. Process spawning, signal handling and
//! configuration-file I/O live outside the library and feed it plain values.

pub mod decimal;
pub mod dispatcher;
pub mod monitor;
pub mod parser;
pub mod service;
pub mod settings;
pub mod supervisor;

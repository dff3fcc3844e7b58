//! The monitor loop's state machine.
//!
//! The loop itself performs blocking outside work — spawning the
//! log-streaming subprocess, reading its lines, sleeping between attempts —
//! so the decisions are separated out here: one transition function from
//! the current state, the cancellation flag as last observed, and the event
//! the outside work produced, to the next state and the actions to perform.
//! The surroundings perform each action in order, observe the next event,
//! and step again until the terminal state is reached.

use crate::dispatcher::LightState;
use crate::parser::{classify, spec_classify, CameraEvent};
use vstd::prelude::*;

verus! {

/// The backoff, in seconds, between an unexpected stream end and the next
/// respawn attempt.
pub const BACKOFF_SECONDS: u64 = 2;

/// The states of the monitor loop.
#[derive(Clone, Copy, PartialEq, Eq, Structural, Debug)]
pub enum MonitorState {
    /// A log stream is live (or being spawned) and lines are being read.
    Running,
    /// No stream is live; the loop waits the fixed backoff before the next
    /// spawn attempt.
    BetweenAttempts,
    /// Terminal: cancellation was observed; the loop cleans up and returns.
    ShuttingDown,
}

/// One observation handed to the monitor loop by its surroundings.
#[derive(Debug)]
pub enum MonitorEvent {
    /// A line arrived on the log stream.
    LineRead(String),
    /// Reading the log stream failed.
    ReadFailed,
    /// The log stream ended: the source process exited on its own.
    StreamEnded,
    /// Spawning the log-streaming subprocess failed.
    SpawnFailed,
    /// The backoff delay elapsed.
    DelayElapsed,
}

/// One instruction the monitor loop hands back to its surroundings.
#[derive(Clone, Copy, PartialEq, Eq, Structural, Debug)]
pub enum MonitorAction {
    /// Invoke the light-control program, driving the light into the given
    /// state with the arguments derived from the settings.
    Dispatch(LightState),
    /// Ask the live log-streaming subprocess to terminate, and reap it.
    /// Best-effort: a no-op when no subprocess is alive.
    TerminateStream,
    /// Wait the fixed backoff delay, watching for cancellation.
    Wait,
    /// Spawn a new log-streaming subprocess.
    SpawnStream,
}

/// The actions issued for one classified line: one dispatch per detected
/// transition, nothing for an ignored line.
pub open spec fn spec_line_actions(e: CameraEvent) -> Seq<MonitorAction> {
    match e {
        CameraEvent::CameraOn => seq![MonitorAction::Dispatch(LightState::On)],
        CameraEvent::CameraOff => seq![MonitorAction::Dispatch(LightState::Off)],
        CameraEvent::Ignored => Seq::<MonitorAction>::empty(),
    }
}

/// One transition of the monitor loop.
///
/// Cancellation wins over every event: observed while a stream is live it
/// asks for the stream's termination and ends the loop; observed during
/// the backoff wait it ends the loop at once. Without cancellation, lines
/// are classified and dispatched while the loop keeps running; a stream
/// end or read failure moves to the backoff state after terminating the
/// stream; a spawn failure moves to the backoff state directly; and an
/// elapsed backoff spawns a fresh stream and resumes running. Events that
/// cannot arise in a state (a line while no stream is live, an elapsed
/// delay while reading) change nothing. The terminal state absorbs every
/// event with no further action.
pub open spec fn spec_step(st: MonitorState, cancelled: bool, ev: MonitorEvent) -> (
    MonitorState,
    Seq<MonitorAction>,
) {
    match st {
        MonitorState::ShuttingDown => (MonitorState::ShuttingDown, Seq::<MonitorAction>::empty()),
        MonitorState::Running => {
            if cancelled {
                (MonitorState::ShuttingDown, seq![MonitorAction::TerminateStream])
            } else {
                match ev {
                    MonitorEvent::LineRead(l) => (
                        MonitorState::Running,
                        spec_line_actions(spec_classify(l@)),
                    ),
                    MonitorEvent::ReadFailed => (
                        MonitorState::BetweenAttempts,
                        seq![MonitorAction::TerminateStream, MonitorAction::Wait],
                    ),
                    MonitorEvent::StreamEnded => (
                        MonitorState::BetweenAttempts,
                        seq![MonitorAction::TerminateStream, MonitorAction::Wait],
                    ),
                    MonitorEvent::SpawnFailed => (
                        MonitorState::BetweenAttempts,
                        seq![MonitorAction::Wait],
                    ),
                    MonitorEvent::DelayElapsed => (
                        MonitorState::Running,
                        Seq::<MonitorAction>::empty(),
                    ),
                }
            }
        },
        MonitorState::BetweenAttempts => {
            if cancelled {
                (MonitorState::ShuttingDown, Seq::<MonitorAction>::empty())
            } else {
                match ev {
                    MonitorEvent::DelayElapsed => (
                        MonitorState::Running,
                        seq![MonitorAction::SpawnStream],
                    ),
                    _ => (MonitorState::BetweenAttempts, Seq::<MonitorAction>::empty()),
                }
            }
        },
    }
}

/// The actions issued for one classified line.
fn line_actions(e: CameraEvent) -> (v: Vec<MonitorAction>)
    ensures
        v@ == spec_line_actions(e),
{
    let mut v: Vec<MonitorAction> = Vec::new();
    match e {
        CameraEvent::CameraOn => {
            v.push(MonitorAction::Dispatch(LightState::On));
        },
        CameraEvent::CameraOff => {
            v.push(MonitorAction::Dispatch(LightState::Off));
        },
        CameraEvent::Ignored => {},
    }
    proof {
        assert(v@ =~= spec_line_actions(e));
    }
    v
}

/// Performs one transition of the monitor loop: returns the next state and
/// the actions the surroundings are to perform, in order.
pub fn step(st: MonitorState, cancelled: bool, ev: MonitorEvent) -> (r: (
    MonitorState,
    Vec<MonitorAction>,
))
    ensures
        r.0 == spec_step(st, cancelled, ev).0,
        r.1@ == spec_step(st, cancelled, ev).1,
{
    let mut actions: Vec<MonitorAction> = Vec::new();
    let next: MonitorState = match st {
        MonitorState::ShuttingDown => MonitorState::ShuttingDown,
        MonitorState::Running => {
            if cancelled {
                actions.push(MonitorAction::TerminateStream);
                MonitorState::ShuttingDown
            } else {
                match ev {
                    MonitorEvent::LineRead(l) => {
                        actions = line_actions(classify(l.as_str()));
                        MonitorState::Running
                    },
                    MonitorEvent::ReadFailed => {
                        actions.push(MonitorAction::TerminateStream);
                        actions.push(MonitorAction::Wait);
                        MonitorState::BetweenAttempts
                    },
                    MonitorEvent::StreamEnded => {
                        actions.push(MonitorAction::TerminateStream);
                        actions.push(MonitorAction::Wait);
                        MonitorState::BetweenAttempts
                    },
                    MonitorEvent::SpawnFailed => {
                        actions.push(MonitorAction::Wait);
                        MonitorState::BetweenAttempts
                    },
                    MonitorEvent::DelayElapsed => MonitorState::Running,
                }
            }
        },
        MonitorState::BetweenAttempts => {
            if cancelled {
                MonitorState::ShuttingDown
            } else {
                match ev {
                    MonitorEvent::DelayElapsed => {
                        actions.push(MonitorAction::SpawnStream);
                        MonitorState::Running
                    },
                    _ => MonitorState::BetweenAttempts,
                }
            }
        },
    };
    proof {
        assert(actions@ =~= spec_step(st, cancelled, ev).1);
    }
    (next, actions)
}

/// Law: without cancellation the loop never reaches the terminal state —
/// stream ends, read failures and spawn failures only ever lead through
/// the backoff state to a new attempt.
pub proof fn lemma_no_shutdown_without_cancellation(st: MonitorState, ev: MonitorEvent)
    requires
        st != MonitorState::ShuttingDown,
    ensures
        spec_step(st, false, ev).0 != MonitorState::ShuttingDown,
{
}

/// The state after feeding a whole sequence of events, each observed with
/// the cancellation flag still clear.
pub open spec fn run_without_cancellation(st: MonitorState, evs: Seq<MonitorEvent>) -> MonitorState
    decreases evs.len(),
{
    if evs.len() == 0 {
        st
    } else {
        run_without_cancellation(spec_step(st, false, evs[0]).0, evs.drop_first())
    }
}

/// Law: however many times the stream ends, a read fails or a spawn fails,
/// a loop that never observes cancellation never reaches the terminal
/// state — respawning goes on indefinitely.
pub proof fn lemma_run_never_shuts_down(st: MonitorState, evs: Seq<MonitorEvent>)
    requires
        st != MonitorState::ShuttingDown,
    ensures
        run_without_cancellation(st, evs) != MonitorState::ShuttingDown,
    decreases evs.len(),
{
    if evs.len() > 0 {
        lemma_no_shutdown_without_cancellation(st, evs[0]);
        lemma_run_never_shuts_down(spec_step(st, false, evs[0]).0, evs.drop_first());
    }
}

/// Law: shutdown is terminal — once the loop is shutting down, no event
/// changes the state or produces an action; in particular no further
/// subprocess is spawned.
pub proof fn lemma_shutdown_terminal(cancelled: bool, ev: MonitorEvent)
    ensures
        spec_step(MonitorState::ShuttingDown, cancelled, ev).0 == MonitorState::ShuttingDown,
        spec_step(MonitorState::ShuttingDown, cancelled, ev).1 =~= Seq::<MonitorAction>::empty(),
{
}

/// Law: cancellation observed while a stream is live asks for the
/// stream's termination and reaches the terminal state in one step,
/// whatever the pending read produced — so a blocked read delays shutdown
/// by at most one line's worth of latency.
pub proof fn lemma_cancellation_terminates_stream(ev: MonitorEvent)
    ensures
        spec_step(MonitorState::Running, true, ev).0 == MonitorState::ShuttingDown,
        spec_step(MonitorState::Running, true, ev).1 =~= seq![MonitorAction::TerminateStream],
        spec_step(MonitorState::BetweenAttempts, true, ev).0 == MonitorState::ShuttingDown,
        spec_step(MonitorState::BetweenAttempts, true, ev).1 =~= Seq::<MonitorAction>::empty(),
{
}

/// Law: dispatch is memoryless — two consecutive lines classified
/// `CameraOn` each leave the loop running and each issue an independent
/// `On` dispatch; nothing is suppressed, and the argument list of each
/// dispatch is derived afresh from the settings alone
/// (`spec_light_args(On, s)`), hence identical between the two.
pub proof fn lemma_dispatch_idempotent(e1: MonitorEvent, e2: MonitorEvent)
    requires
        e1 matches MonitorEvent::LineRead(l) && spec_classify(l@) == CameraEvent::CameraOn,
        e2 matches MonitorEvent::LineRead(l) && spec_classify(l@) == CameraEvent::CameraOn,
    ensures
        spec_step(MonitorState::Running, false, e1).0 == MonitorState::Running,
        spec_step(MonitorState::Running, false, e1).1 =~= seq![
            MonitorAction::Dispatch(LightState::On),
        ],
        spec_step(MonitorState::Running, false, e2).0 == MonitorState::Running,
        spec_step(MonitorState::Running, false, e2).1 =~= seq![
            MonitorAction::Dispatch(LightState::On),
        ],
{
}

/// Law: the backoff cycle — without cancellation, a stream end or read
/// failure terminates the stream and waits; a spawn failure waits; and an
/// elapsed backoff spawns exactly one new stream and resumes running.
pub proof fn lemma_backoff_and_respawn()
    ensures
        spec_step(MonitorState::Running, false, MonitorEvent::StreamEnded).0
            == MonitorState::BetweenAttempts,
        spec_step(MonitorState::Running, false, MonitorEvent::StreamEnded).1 =~= seq![
            MonitorAction::TerminateStream,
            MonitorAction::Wait,
        ],
        spec_step(MonitorState::Running, false, MonitorEvent::ReadFailed).0
            == MonitorState::BetweenAttempts,
        spec_step(MonitorState::Running, false, MonitorEvent::ReadFailed).1 =~= seq![
            MonitorAction::TerminateStream,
            MonitorAction::Wait,
        ],
        spec_step(MonitorState::Running, false, MonitorEvent::SpawnFailed).0
            == MonitorState::BetweenAttempts,
        spec_step(MonitorState::Running, false, MonitorEvent::SpawnFailed).1 =~= seq![
            MonitorAction::Wait,
        ],
        spec_step(MonitorState::BetweenAttempts, false, MonitorEvent::DelayElapsed).0
            == MonitorState::Running,
        spec_step(MonitorState::BetweenAttempts, false, MonitorEvent::DelayElapsed).1 =~= seq![
            MonitorAction::SpawnStream,
        ],
{
}

} // verus!

use elgato_autolight::dispatcher::LightState;
use elgato_autolight::monitor::{step, MonitorAction, MonitorEvent, MonitorState, BACKOFF_SECONDS};

#[test]
fn backoff_is_two_seconds() {
    assert_eq!(BACKOFF_SECONDS, 2);
}

#[test]
fn on_line_dispatches_and_keeps_running() {
    let (st, actions) = step(
        MonitorState::Running,
        false,
        MonitorEvent::LineRead("camera power state = On".to_string()),
    );
    assert_eq!(st, MonitorState::Running);
    assert_eq!(actions, vec![MonitorAction::Dispatch(LightState::On)]);
}

#[test]
fn off_line_dispatches_and_keeps_running() {
    let (st, actions) = step(
        MonitorState::Running,
        false,
        MonitorEvent::LineRead("camera power state = Off".to_string()),
    );
    assert_eq!(st, MonitorState::Running);
    assert_eq!(actions, vec![MonitorAction::Dispatch(LightState::Off)]);
}

#[test]
fn ignored_line_does_nothing() {
    let (st, actions) = step(
        MonitorState::Running,
        false,
        MonitorEvent::LineRead("unrelated chatter".to_string()),
    );
    assert_eq!(st, MonitorState::Running);
    assert!(actions.is_empty());
}

#[test]
fn two_on_lines_dispatch_twice() {
    // Idempotent dispatch: the second on line is not suppressed.
    let (st, a1) = step(
        MonitorState::Running,
        false,
        MonitorEvent::LineRead("state = On".to_string()),
    );
    let (st, a2) = step(st, false, MonitorEvent::LineRead("state = On".to_string()));
    assert_eq!(st, MonitorState::Running);
    assert_eq!(a1, vec![MonitorAction::Dispatch(LightState::On)]);
    assert_eq!(a2, a1);
}

#[test]
fn five_stream_ends_respawn_five_times() {
    // The stream ends naturally five times in a row without cancellation:
    // five respawns, each preceded by a backoff wait, and the loop never
    // reaches the terminal state.
    let mut st = MonitorState::Running;
    let mut waits = 0;
    let mut spawns = 0;
    for _ in 0..5 {
        let (s, actions) = step(st, false, MonitorEvent::StreamEnded);
        assert_eq!(s, MonitorState::BetweenAttempts);
        assert_eq!(actions, vec![MonitorAction::TerminateStream, MonitorAction::Wait]);
        waits += 1;
        let (s, actions) = step(s, false, MonitorEvent::DelayElapsed);
        assert_eq!(s, MonitorState::Running);
        assert_eq!(actions, vec![MonitorAction::SpawnStream]);
        spawns += 1;
        st = s;
        assert_ne!(st, MonitorState::ShuttingDown);
    }
    assert_eq!(waits, 5);
    assert_eq!(spawns, 5);
}

#[test]
fn cancellation_during_read_terminates_stream() {
    // The flag is set while a read is blocked: at the next line boundary
    // the subprocess receives a termination request and the loop is
    // terminal, with no further spawns whatever happens afterwards.
    let (st, actions) = step(
        MonitorState::Running,
        true,
        MonitorEvent::LineRead("state = On".to_string()),
    );
    assert_eq!(st, MonitorState::ShuttingDown);
    assert_eq!(actions, vec![MonitorAction::TerminateStream]);

    let (st, actions) = step(st, true, MonitorEvent::DelayElapsed);
    assert_eq!(st, MonitorState::ShuttingDown);
    assert!(actions.is_empty());
    let (st, actions) = step(st, false, MonitorEvent::StreamEnded);
    assert_eq!(st, MonitorState::ShuttingDown);
    assert!(actions.is_empty());
}

#[test]
fn cancellation_at_stream_end_skips_respawn() {
    let (st, actions) = step(MonitorState::Running, false, MonitorEvent::StreamEnded);
    assert_eq!(st, MonitorState::BetweenAttempts);
    assert_eq!(actions, vec![MonitorAction::TerminateStream, MonitorAction::Wait]);
    // Cancellation observed during the backoff wait: terminal, no spawn.
    let (st, actions) = step(st, true, MonitorEvent::DelayElapsed);
    assert_eq!(st, MonitorState::ShuttingDown);
    assert!(actions.is_empty());
}

#[test]
fn spawn_failure_backs_off_and_retries() {
    // Spawning the log source fails: the loop waits the standard backoff
    // and retries spawning rather than exiting.
    let (st, actions) = step(MonitorState::Running, false, MonitorEvent::SpawnFailed);
    assert_eq!(st, MonitorState::BetweenAttempts);
    assert_eq!(actions, vec![MonitorAction::Wait]);
    let (st, actions) = step(st, false, MonitorEvent::DelayElapsed);
    assert_eq!(st, MonitorState::Running);
    assert_eq!(actions, vec![MonitorAction::SpawnStream]);
}

#[test]
fn read_failure_backs_off_like_stream_end() {
    let (st, actions) = step(MonitorState::Running, false, MonitorEvent::ReadFailed);
    assert_eq!(st, MonitorState::BetweenAttempts);
    assert_eq!(actions, vec![MonitorAction::TerminateStream, MonitorAction::Wait]);
}

#[test]
fn stray_events_change_nothing() {
    let (st, actions) = step(
        MonitorState::BetweenAttempts,
        false,
        MonitorEvent::LineRead("state = On".to_string()),
    );
    assert_eq!(st, MonitorState::BetweenAttempts);
    assert!(actions.is_empty());
    let (st, actions) = step(MonitorState::Running, false, MonitorEvent::DelayElapsed);
    assert_eq!(st, MonitorState::Running);
    assert!(actions.is_empty());
}

use nvim_bridge::backoff::{next_backoff, BASE_BACKOFF_SECS, MAX_BACKOFF_SECS};
use nvim_bridge::events::UserEvent;
use nvim_bridge::reconnect::{
    ReconnectAction, ReconnectInput, ReconnectPhase, ReconnectSupervisor,
};
use nvim_bridge::running_tracker::RunningTracker;

const ADDRESS: &str = "127.0.0.1:6666";

fn start(address: &str, wait: u64) -> UserEvent {
    UserEvent::ReconnectStart { address: address.to_string(), wait }
}

/// Runs one round that fails and returns what was sent in it.
fn fail_once(supervisor: &mut ReconnectSupervisor) -> Vec<UserEvent> {
    let mut sent = Vec::new();
    assert_eq!(supervisor.action(), ReconnectAction::PollQuit);
    sent.extend(supervisor.step(ReconnectInput::QuitPolled { quit_requested: false }));
    assert_eq!(supervisor.action(), ReconnectAction::Launch);
    sent.extend(supervisor.step(ReconnectInput::LaunchFailed));
    assert!(matches!(supervisor.action(), ReconnectAction::Sleep { .. }));
    sent.extend(supervisor.step(ReconnectInput::SleepElapsed));
    sent
}

#[test]
fn backoff_doubles_up_to_the_cap() {
    let mut wait = BASE_BACKOFF_SECS;
    let mut seen = Vec::new();
    for _ in 0..8 {
        seen.push(wait);
        wait = next_backoff(wait);
    }
    assert_eq!(seen, vec![1, 2, 4, 8, 16, 30, 30, 30]);
}

#[test]
fn backoff_never_exceeds_the_cap() {
    assert_eq!(MAX_BACKOFF_SECS, 30);
    assert_eq!(next_backoff(0), 0);
    assert_eq!(next_backoff(14), 28);
    assert_eq!(next_backoff(15), 30);
    assert_eq!(next_backoff(16), 30);
    assert_eq!(next_backoff(29), 30);
    assert_eq!(next_backoff(30), 30);
    assert_eq!(next_backoff(31), 30);
    assert_eq!(next_backoff(u64::MAX), 30);
}

#[test]
fn new_supervisor_starts_at_the_base_delay() {
    let supervisor = ReconnectSupervisor::new(ADDRESS.to_string());
    assert_eq!(supervisor.address, ADDRESS);
    assert_eq!(supervisor.wait, 1);
    assert_eq!(supervisor.attempts, 0);
    assert_eq!(supervisor.phase, ReconnectPhase::Polling);
    assert_eq!(supervisor.action(), ReconnectAction::PollQuit);
}

#[test]
fn three_refusals_then_accept() {
    let mut supervisor = ReconnectSupervisor::new(ADDRESS.to_string());
    let mut sent = Vec::new();
    let mut slept = Vec::new();
    for _ in 0..3 {
        sent.extend(supervisor.step(ReconnectInput::QuitPolled { quit_requested: false }));
        sent.extend(supervisor.step(ReconnectInput::LaunchFailed));
        match supervisor.action() {
            ReconnectAction::Sleep { secs } => slept.push(secs),
            other => panic!("expected a sleep, got {:?}", other),
        }
        sent.extend(supervisor.step(ReconnectInput::SleepElapsed));
    }
    sent.extend(supervisor.step(ReconnectInput::QuitPolled { quit_requested: false }));
    sent.extend(supervisor.step(ReconnectInput::LaunchSucceeded));
    assert_eq!(
        sent,
        vec![
            start(ADDRESS, 1),
            UserEvent::RedrawRequested,
            start(ADDRESS, 2),
            UserEvent::RedrawRequested,
            start(ADDRESS, 4),
            UserEvent::RedrawRequested,
            UserEvent::ReconnectStop,
            UserEvent::RedrawRequested,
        ]
    );
    assert_eq!(slept, vec![1, 2, 4]);
    assert_eq!(supervisor.attempts, 4);
    assert_eq!(supervisor.action(), ReconnectAction::Monitor);
}

#[test]
fn announced_delays_follow_the_backoff_sequence() {
    let mut supervisor = ReconnectSupervisor::new(ADDRESS.to_string());
    let mut announced = Vec::new();
    for _ in 0..8 {
        for event in fail_once(&mut supervisor) {
            if let UserEvent::ReconnectStart { address, wait } = event {
                assert_eq!(address, ADDRESS);
                announced.push(wait);
            }
        }
        assert!(supervisor.wait <= 30);
    }
    assert_eq!(announced, vec![1, 2, 4, 8, 16, 30, 30, 30]);
}

#[test]
fn success_resets_the_delay() {
    let mut supervisor = ReconnectSupervisor::new(ADDRESS.to_string());
    for _ in 0..6 {
        fail_once(&mut supervisor);
    }
    assert_eq!(supervisor.wait, 30);
    supervisor.step(ReconnectInput::QuitPolled { quit_requested: false });
    let sent = supervisor.step(ReconnectInput::LaunchSucceeded);
    assert_eq!(sent, vec![UserEvent::ReconnectStop, UserEvent::RedrawRequested]);
    assert_eq!(supervisor.wait, 1);
    assert_eq!(supervisor.phase, ReconnectPhase::Monitoring);
    assert!(supervisor.step(ReconnectInput::SessionEnded).is_empty());
    assert_eq!(supervisor.phase, ReconnectPhase::Finished);
    assert_eq!(supervisor.action(), ReconnectAction::Done);
    assert_eq!(supervisor.wait, 1);
    let again = ReconnectSupervisor::new(ADDRESS.to_string());
    assert_eq!(again.wait, 1);
}

#[test]
fn quit_while_sleeping_stops_without_another_attempt() {
    let mut supervisor = ReconnectSupervisor::new(ADDRESS.to_string());
    supervisor.step(ReconnectInput::QuitPolled { quit_requested: false });
    supervisor.step(ReconnectInput::LaunchFailed);
    assert_eq!(supervisor.action(), ReconnectAction::Sleep { secs: 1 });
    assert!(supervisor.step(ReconnectInput::SleepElapsed).is_empty());
    assert_eq!(supervisor.action(), ReconnectAction::PollQuit);
    assert!(supervisor.step(ReconnectInput::QuitPolled { quit_requested: true }).is_empty());
    assert_eq!(supervisor.phase, ReconnectPhase::Stopped);
    assert_eq!(supervisor.action(), ReconnectAction::Done);
    assert_eq!(supervisor.attempts, 1);
    for input in [
        ReconnectInput::LaunchSucceeded,
        ReconnectInput::LaunchFailed,
        ReconnectInput::SleepElapsed,
        ReconnectInput::SessionEnded,
        ReconnectInput::QuitPolled { quit_requested: false },
    ] {
        assert!(supervisor.step(input).is_empty());
        assert_eq!(supervisor.phase, ReconnectPhase::Stopped);
        assert_eq!(supervisor.attempts, 1);
    }
}

#[test]
fn quit_before_the_first_attempt_sends_nothing() {
    let mut supervisor = ReconnectSupervisor::new(ADDRESS.to_string());
    assert!(supervisor.step(ReconnectInput::QuitPolled { quit_requested: true }).is_empty());
    assert_eq!(supervisor.phase, ReconnectPhase::Stopped);
    assert_eq!(supervisor.attempts, 0);
}

#[test]
fn reconnect_start_is_followed_by_stop_or_start() {
    let mut retried = ReconnectSupervisor::new(ADDRESS.to_string());
    fail_once(&mut retried);
    retried.step(ReconnectInput::QuitPolled { quit_requested: false });
    assert_eq!(
        retried.step(ReconnectInput::LaunchFailed),
        vec![start(ADDRESS, 2), UserEvent::RedrawRequested]
    );
    let mut connected = ReconnectSupervisor::new(ADDRESS.to_string());
    fail_once(&mut connected);
    connected.step(ReconnectInput::QuitPolled { quit_requested: false });
    assert_eq!(
        connected.step(ReconnectInput::LaunchSucceeded),
        vec![UserEvent::ReconnectStop, UserEvent::RedrawRequested]
    );
}

#[test]
fn inputs_out_of_turn_are_ignored() {
    let mut supervisor = ReconnectSupervisor::new(ADDRESS.to_string());
    for input in [
        ReconnectInput::LaunchSucceeded,
        ReconnectInput::LaunchFailed,
        ReconnectInput::SleepElapsed,
        ReconnectInput::SessionEnded,
    ] {
        assert!(supervisor.step(input).is_empty());
        assert_eq!(supervisor.phase, ReconnectPhase::Polling);
        assert_eq!(supervisor.wait, 1);
        assert_eq!(supervisor.attempts, 0);
    }
    supervisor.step(ReconnectInput::QuitPolled { quit_requested: false });
    assert!(supervisor.step(ReconnectInput::SleepElapsed).is_empty());
    assert!(supervisor.step(ReconnectInput::QuitPolled { quit_requested: true }).is_empty());
    assert_eq!(supervisor.phase, ReconnectPhase::Connecting);
    assert_eq!(supervisor.attempts, 1);
}

#[test]
fn attempts_stop_counting_at_the_largest_number() {
    let mut supervisor = ReconnectSupervisor::new(ADDRESS.to_string());
    supervisor.attempts = u64::MAX;
    supervisor.step(ReconnectInput::QuitPolled { quit_requested: false });
    assert_eq!(supervisor.attempts, u64::MAX);
    assert_eq!(supervisor.phase, ReconnectPhase::Connecting);
}

#[test]
fn poll_reads_the_quit_flag() {
    let tracker = RunningTracker::new();
    let mut supervisor = ReconnectSupervisor::new(ADDRESS.to_string());
    assert!(!supervisor.poll(&tracker));
    assert_eq!(supervisor.phase, ReconnectPhase::Connecting);
    supervisor.step(ReconnectInput::LaunchFailed);
    supervisor.step(ReconnectInput::SleepElapsed);
    tracker.request_quit();
    assert!(supervisor.poll(&tracker));
    assert_eq!(supervisor.phase, ReconnectPhase::Stopped);
    assert_eq!(supervisor.attempts, 1);
}

use nvim_bridge::events::UserEvent;
use nvim_bridge::monitor::{MonitorAction, MonitorInput, MonitorPhase, ServerMonitor};
use nvim_bridge::reconnect_indicator::ReconnectIndicator;
use nvim_bridge::run_once::{RunAction, RunInput, RunPhase, SessionRun};
use nvim_bridge::session::{close_session, SessionEffect, DRAIN_TIMEOUT_MS};

fn closing() -> Vec<SessionEffect> {
    vec![SessionEffect::ClearCurrentConnection, SessionEffect::Emit(UserEvent::NeovimExited)]
}

fn exits(effects: &[SessionEffect]) -> usize {
    effects.iter().filter(|e| **e == SessionEffect::Emit(UserEvent::NeovimExited)).count()
}

#[test]
fn closing_a_session_clears_then_announces() {
    assert_eq!(close_session(), closing());
    assert_eq!(DRAIN_TIMEOUT_MS, 500);
}

#[test]
fn monitor_pings_every_five_seconds_with_two_seconds_to_answer() {
    let mut monitor = ServerMonitor::new(false);
    assert_eq!(monitor.action(), MonitorAction::WaitForCloseOrTick { interval_secs: 5 });
    assert!(monitor.step(MonitorInput::PingDue).is_empty());
    assert_eq!(monitor.action(), MonitorAction::Ping { timeout_secs: 2 });
    assert!(monitor.step(MonitorInput::PingAnswered).is_empty());
    assert_eq!(monitor.phase, MonitorPhase::Watching);
    assert_eq!(monitor.action(), MonitorAction::WaitForCloseOrTick { interval_secs: 5 });
}

#[test]
fn ping_timeout_aborts_the_read_loop_and_announces_the_exit_once() {
    let mut monitor = ServerMonitor::new(false);
    let mut effects = Vec::new();
    effects.extend(monitor.step(MonitorInput::PingDue));
    effects.extend(monitor.step(MonitorInput::PingTimedOut));
    assert_eq!(
        effects,
        vec![
            SessionEffect::AbortReadLoop,
            SessionEffect::ClearCurrentConnection,
            SessionEffect::Emit(UserEvent::NeovimExited),
        ]
    );
    assert_eq!(monitor.action(), MonitorAction::Done);
    for input in [
        MonitorInput::TransportClosed,
        MonitorInput::PingDue,
        MonitorInput::PingAnswered,
        MonitorInput::PingTimedOut,
        MonitorInput::StderrDrained,
        MonitorInput::DrainTimedOut,
    ] {
        effects.extend(monitor.step(input));
        assert_eq!(monitor.phase, MonitorPhase::Finished);
    }
    assert_eq!(exits(&effects), 1);
}

#[test]
fn ping_timeout_with_a_relay_drains_before_the_exit() {
    for answer in [MonitorInput::StderrDrained, MonitorInput::DrainTimedOut] {
        let mut monitor = ServerMonitor::new(true);
        monitor.step(MonitorInput::PingDue);
        assert_eq!(monitor.step(MonitorInput::PingTimedOut), vec![SessionEffect::AbortReadLoop]);
        assert_eq!(monitor.action(), MonitorAction::DrainStderr { timeout_millis: 500 });
        assert_eq!(monitor.step(answer), closing());
        assert_eq!(monitor.phase, MonitorPhase::Finished);
        assert!(monitor.step(answer).is_empty());
    }
}

#[test]
fn closed_transport_ends_the_watch_without_an_abort() {
    let mut plain = ServerMonitor::new(false);
    assert_eq!(plain.step(MonitorInput::TransportClosed), closing());
    assert_eq!(plain.phase, MonitorPhase::Finished);

    let mut relayed = ServerMonitor::new(true);
    assert!(relayed.step(MonitorInput::TransportClosed).is_empty());
    assert_eq!(relayed.phase, MonitorPhase::Draining);
    assert!(relayed.step(MonitorInput::TransportClosed).is_empty());
    assert!(relayed.step(MonitorInput::PingDue).is_empty());
    assert_eq!(relayed.phase, MonitorPhase::Draining);
    assert_eq!(relayed.step(MonitorInput::DrainTimedOut), closing());
}

#[test]
fn monitor_inputs_out_of_turn_are_ignored() {
    let mut monitor = ServerMonitor::new(true);
    for input in [
        MonitorInput::PingAnswered,
        MonitorInput::PingTimedOut,
        MonitorInput::StderrDrained,
        MonitorInput::DrainTimedOut,
    ] {
        assert!(monitor.step(input).is_empty());
        assert_eq!(monitor.phase, MonitorPhase::Watching);
    }
    monitor.step(MonitorInput::PingDue);
    for input in [
        MonitorInput::TransportClosed,
        MonitorInput::PingDue,
        MonitorInput::StderrDrained,
        MonitorInput::DrainTimedOut,
    ] {
        assert!(monitor.step(input).is_empty());
        assert_eq!(monitor.phase, MonitorPhase::Pinging);
    }
}

#[test]
fn embedded_run_ends_when_the_transport_closes() {
    let mut run = SessionRun::new(true, false);
    assert_eq!(run.action(), RunAction::WaitForCloseOrExit);
    assert_eq!(run.step(RunInput::TransportClosed), closing());
    assert_eq!(run.phase, RunPhase::Finished);
    assert_eq!(run.action(), RunAction::Done);
    assert!(run.step(RunInput::ProcessExited).is_empty());
    assert!(run.step(RunInput::TransportClosed).is_empty());
}

#[test]
fn process_exit_gives_the_transport_half_a_second() {
    for answer in [RunInput::TransportClosed, RunInput::LingerTimedOut] {
        let mut run = SessionRun::new(true, true);
        assert!(run.step(RunInput::ProcessExited).is_empty());
        assert_eq!(run.phase, RunPhase::Lingering);
        assert_eq!(run.action(), RunAction::WaitForCloseWithin { timeout_millis: 500 });
        assert!(run.step(answer).is_empty());
        assert_eq!(run.action(), RunAction::DrainStderr { timeout_millis: 500 });
        assert_eq!(run.step(RunInput::StderrDrained), closing());
        assert_eq!(run.phase, RunPhase::Finished);
    }
}

#[test]
fn drain_timeout_does_not_hold_up_the_exit() {
    let mut run = SessionRun::new(true, true);
    let mut effects = Vec::new();
    effects.extend(run.step(RunInput::TransportClosed));
    assert_eq!(run.phase, RunPhase::Draining);
    effects.extend(run.step(RunInput::DrainTimedOut));
    assert_eq!(effects, closing());
    effects.extend(run.step(RunInput::DrainTimedOut));
    effects.extend(run.step(RunInput::StderrDrained));
    assert_eq!(exits(&effects), 1);
}

#[test]
fn session_without_a_process_waits_for_the_transport_only() {
    let mut run = SessionRun::new(false, false);
    assert_eq!(run.action(), RunAction::WaitForClose);
    assert!(run.step(RunInput::ProcessExited).is_empty());
    assert_eq!(run.phase, RunPhase::Running);
    assert!(run.step(RunInput::LingerTimedOut).is_empty());
    assert_eq!(run.phase, RunPhase::Running);
    assert_eq!(run.step(RunInput::TransportClosed), closing());
}

#[test]
fn indicator_starts_and_stops() {
    let mut indicator = ReconnectIndicator::new();
    assert!(!indicator.is_active());
    assert_eq!(indicator.address(), "");
    assert_eq!(indicator.remaining_millis(0), 0);
    indicator.start("127.0.0.1:6666".to_string(), 10_000, 4_000);
    assert!(indicator.is_active());
    assert_eq!(indicator.address(), "127.0.0.1:6666");
    assert_eq!(indicator.remaining_millis(10_000), 4_000);
    indicator.stop();
    assert!(!indicator.is_active());
    assert_eq!(indicator.address(), "127.0.0.1:6666");
    assert_eq!(indicator.remaining_millis(10_000), 4_000);
}

#[test]
fn indicator_counts_begun_seconds() {
    let mut indicator = ReconnectIndicator::new();
    indicator.start("host:1".to_string(), 1_000, 4_000);
    assert_eq!(indicator.remaining_seconds(1_000), 4);
    assert_eq!(indicator.remaining_seconds(1_001), 4);
    assert_eq!(indicator.remaining_seconds(2_000), 3);
    assert_eq!(indicator.remaining_seconds(4_999), 1);
    assert_eq!(indicator.remaining_seconds(5_000), 0);
    assert_eq!(indicator.remaining_seconds(9_000), 0);
    assert_eq!(indicator.remaining_millis(9_000), 0);
    assert_eq!(indicator.remaining_millis(4_999), 1);
}

#[test]
fn indicator_end_time_saturates() {
    let mut indicator = ReconnectIndicator::new();
    indicator.start("host:1".to_string(), u64::MAX - 5, 30_000);
    assert_eq!(indicator.remaining_millis(u64::MAX - 5), 5);
    assert_eq!(indicator.remaining_millis(0), u64::MAX);
    assert_eq!(indicator.remaining_seconds(0), u64::MAX / 1000 + 1);
}

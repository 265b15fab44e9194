//! Watching a server connection: wait for the transport to close, and every
//! five seconds ask the backend for a sign of life. A ping without an answer
//! within two seconds tears the transport down.
//!
//! Waiting and pinging are the caller's work. [`ServerMonitor::step`] takes
//! each outcome and gives the effects to carry out, and
//! [`ServerMonitor::action`] names what to wait for next.

use crate::events::UserEvent;
use crate::session::{
    close_session,
    closing_effects,
    exits_announced,
    lemma_closing_effects_announce_once,
    lemma_exits_announced_concat,
    SessionEffect,
    DRAIN_TIMEOUT_MS,
};
use vstd::prelude::*;

verus! {

/// The time between two pings, in seconds.
pub const PING_INTERVAL_SECS: u64 = 5;

/// The time a ping may take, in seconds.
pub const PING_TIMEOUT_SECS: u64 = 2;

/// What the monitor is waiting for.
#[derive(Debug, Clone, Copy, PartialEq, Eq)]
pub enum MonitorPhase {
    /// The transport to close, or the next ping to fall due.
    Watching,
    /// The answer to a ping.
    Pinging,
    /// The relay of the error stream to finish.
    Draining,
    /// Nothing: the session has ended. Terminal.
    Finished,
}

/// What the caller reports back.
#[derive(Debug, Clone, Copy, PartialEq, Eq)]
pub enum MonitorInput {
    /// The read loop has ended.
    TransportClosed,
    /// The ping timer has fired.
    PingDue,
    /// The ping came back in time, with whatever result.
    PingAnswered,
    /// The ping did not come back in time.
    PingTimedOut,
    /// The relay of the error stream has finished.
    StderrDrained,
    /// The relay did not finish in time.
    DrainTimedOut,
}

/// The one thing the caller has to do next.
#[derive(Debug, Clone, Copy, PartialEq, Eq)]
pub enum MonitorAction {
    /// Wait for the transport to close or for the timer, which fires every
    /// `interval_secs` seconds; report `TransportClosed` or `PingDue`.
    WaitForCloseOrTick { interval_secs: u64 },
    /// Ask the backend for its version and wait at most `timeout_secs`
    /// seconds; report `PingAnswered` or `PingTimedOut`.
    Ping { timeout_secs: u64 },
    /// Wait at most `timeout_millis` milliseconds for the relay, then drop
    /// it; report `StderrDrained` or `DrainTimedOut`.
    DrainStderr { timeout_millis: u64 },
    /// Nothing: the session has ended.
    Done,
}

/// The state of the watch over one server session.
pub struct ServerMonitor {
    /// The session has a relay for the error stream of its backend.
    pub has_stderr_task: bool,
    pub phase: MonitorPhase,
}

impl ServerMonitor {
    /// The state a watch starts in.
    pub open spec fn initial(has_stderr_task: bool) -> Self {
        ServerMonitor { has_stderr_task, phase: MonitorPhase::Watching }
    }

    /// The input ends the connection: the transport has closed, or a ping
    /// has timed out.
    pub open spec fn ends_connection(self, input: MonitorInput) -> bool {
        (self.phase is Watching && input is TransportClosed) || (self.phase is Pinging && input
            is PingTimedOut)
    }

    /// The input ends the wait for the relay.
    pub open spec fn ends_drain(self, input: MonitorInput) -> bool {
        self.phase is Draining && (input is StderrDrained || input is DrainTimedOut)
    }

    /// The state that follows `self` on `input`. An input that does not
    /// answer the pending action leaves the state as it is.
    pub open spec fn next(self, input: MonitorInput) -> Self {
        if self.ends_connection(input) {
            ServerMonitor {
                phase: if self.has_stderr_task {
                    MonitorPhase::Draining
                } else {
                    MonitorPhase::Finished
                },
                ..self
            }
        } else if self.ends_drain(input) {
            ServerMonitor { phase: MonitorPhase::Finished, ..self }
        } else if self.phase is Watching && input is PingDue {
            ServerMonitor { phase: MonitorPhase::Pinging, ..self }
        } else if self.phase is Pinging && input is PingAnswered {
            ServerMonitor { phase: MonitorPhase::Watching, ..self }
        } else {
            self
        }
    }

    /// The effects to carry out on `input`, in order: the read loop is
    /// aborted where a ping has timed out, and the session is closed where
    /// the watch finishes.
    pub open spec fn effects(self, input: MonitorInput) -> Seq<SessionEffect> {
        let abort = if self.phase is Pinging && input is PingTimedOut {
            seq![SessionEffect::AbortReadLoop]
        } else {
            Seq::empty()
        };
        let close = if self.next(input).phase is Finished && !(self.phase is Finished) {
            closing_effects()
        } else {
            Seq::empty()
        };
        abort + close
    }

    /// The action that the state is waiting on.
    pub open spec fn pending(self) -> MonitorAction {
        match self.phase {
            MonitorPhase::Watching => MonitorAction::WaitForCloseOrTick { interval_secs: 5 },
            MonitorPhase::Pinging => MonitorAction::Ping { timeout_secs: 2 },
            MonitorPhase::Draining => MonitorAction::DrainStderr { timeout_millis: 500 },
            MonitorPhase::Finished => MonitorAction::Done,
        }
    }

    /// The state after the inputs of `inputs` were taken one by one.
    pub open spec fn run(self, inputs: Seq<MonitorInput>) -> Self
        decreases inputs.len(),
    {
        if inputs.len() == 0 {
            self
        } else {
            self.next(inputs.first()).run(inputs.drop_first())
        }
    }

    /// Every effect asked for while the inputs of `inputs` were taken, in
    /// order.
    pub open spec fn run_effects(self, inputs: Seq<MonitorInput>) -> Seq<SessionEffect>
        decreases inputs.len(),
    {
        if inputs.len() == 0 {
            Seq::empty()
        } else {
            self.effects(inputs.first()) + self.next(inputs.first()).run_effects(
                inputs.drop_first(),
            )
        }
    }

    /// A watch over a session that has just been attached.
    pub fn new(has_stderr_task: bool) -> (monitor: Self)
        ensures
            monitor == Self::initial(has_stderr_task),
    {
        ServerMonitor { has_stderr_task, phase: MonitorPhase::Watching }
    }

    /// What the caller has to do next.
    pub fn action(&self) -> (action: MonitorAction)
        ensures
            action == self.pending(),
    {
        match self.phase {
            MonitorPhase::Watching => MonitorAction::WaitForCloseOrTick {
                interval_secs: PING_INTERVAL_SECS,
            },
            MonitorPhase::Pinging => MonitorAction::Ping { timeout_secs: PING_TIMEOUT_SECS },
            MonitorPhase::Draining => MonitorAction::DrainStderr {
                timeout_millis: DRAIN_TIMEOUT_MS,
            },
            MonitorPhase::Finished => MonitorAction::Done,
        }
    }

    /// Takes `input` and returns the effects to carry out, in order.
    pub fn step(&mut self, input: MonitorInput) -> (effects: Vec<SessionEffect>)
        ensures
            *final(self) == old(self).next(input),
            effects@ == old(self).effects(input),
    {
        let mut effects: Vec<SessionEffect> = Vec::new();
        match (self.phase, input) {
            (MonitorPhase::Watching, MonitorInput::TransportClosed) => {
                effects = self.end_connection(effects);
            },
            (MonitorPhase::Pinging, MonitorInput::PingTimedOut) => {
                effects.push(SessionEffect::AbortReadLoop);
                effects = self.end_connection(effects);
            },
            (MonitorPhase::Draining, MonitorInput::StderrDrained) => {
                self.phase = MonitorPhase::Finished;
                effects = close_session();
            },
            (MonitorPhase::Draining, MonitorInput::DrainTimedOut) => {
                self.phase = MonitorPhase::Finished;
                effects = close_session();
            },
            (MonitorPhase::Watching, MonitorInput::PingDue) => {
                self.phase = MonitorPhase::Pinging;
            },
            (MonitorPhase::Pinging, MonitorInput::PingAnswered) => {
                self.phase = MonitorPhase::Watching;
            },
            _ => {},
        }
        assert(effects@ =~= old(self).effects(input));
        effects
    }

    /// The connection is over: wait for the relay where there is one, close
    /// the session where there is none.
    fn end_connection(&mut self, before: Vec<SessionEffect>) -> (effects: Vec<SessionEffect>)
        ensures
            final(self).has_stderr_task == old(self).has_stderr_task,
            old(self).has_stderr_task ==> final(self).phase is Draining && effects@ == before@,
            !old(self).has_stderr_task ==> final(self).phase is Finished && effects@ == before@
                + closing_effects(),
    {
        let mut effects = before;
        if self.has_stderr_task {
            self.phase = MonitorPhase::Draining;
        } else {
            self.phase = MonitorPhase::Finished;
            effects.push(SessionEffect::ClearCurrentConnection);
            effects.push(SessionEffect::Emit(UserEvent::NeovimExited));
            assert(effects@ =~= before@ + closing_effects());
        }
        effects
    }
}

/// A watch that has finished stays finished and asks for nothing more.
pub proof fn lemma_terminal_absorbs(state: ServerMonitor, inputs: Seq<MonitorInput>)
    requires
        state.phase is Finished,
    ensures
        state.run(inputs) == state,
        state.run_effects(inputs) == Seq::<SessionEffect>::empty(),
    decreases inputs.len(),
{
    if inputs.len() > 0 {
        lemma_terminal_absorbs(state, inputs.drop_first());
        assert(state.effects(inputs.first()) + Seq::<SessionEffect>::empty() =~= Seq::<
            SessionEffect,
        >::empty());
    }
}

/// A ping is due every five seconds and may take two. One that is answered
/// in time changes nothing: the watch goes on and no effect is asked for.
pub proof fn lemma_answered_ping_keeps_watching(state: ServerMonitor)
    requires
        state.phase is Watching,
    ensures
        ({
            let pinging = state.next(MonitorInput::PingDue);
            &&& state.pending() == MonitorAction::WaitForCloseOrTick { interval_secs: 5 }
            &&& pinging.pending() == MonitorAction::Ping { timeout_secs: 2 }
            &&& pinging.next(MonitorInput::PingAnswered) == state
            &&& state.effects(MonitorInput::PingDue) == Seq::<SessionEffect>::empty()
            &&& pinging.effects(MonitorInput::PingAnswered) == Seq::<SessionEffect>::empty()
        }),
{
    let pinging = state.next(MonitorInput::PingDue);
    assert(state.effects(MonitorInput::PingDue) =~= Seq::<SessionEffect>::empty());
    assert(pinging.effects(MonitorInput::PingAnswered) =~= Seq::<SessionEffect>::empty());
}

/// A ping that is not answered within its two seconds tears the transport
/// down: the read loop is aborted first. The session is then closed, at
/// once where it has no relay, and else as soon as the wait for the relay
/// is over, however that wait ends.
pub proof fn lemma_ping_timeout_tears_down(state: ServerMonitor, drained: bool)
    requires
        state.phase is Pinging,
    ensures
        ({
            let torn = state.next(MonitorInput::PingTimedOut);
            let answer = if drained {
                MonitorInput::StderrDrained
            } else {
                MonitorInput::DrainTimedOut
            };
            &&& state.pending() == MonitorAction::Ping { timeout_secs: 2 }
            &&& state.effects(MonitorInput::PingTimedOut)[0] == SessionEffect::AbortReadLoop
            &&& !state.has_stderr_task ==> {
                &&& torn.phase is Finished
                &&& state.effects(MonitorInput::PingTimedOut) == seq![
                    SessionEffect::AbortReadLoop,
                    SessionEffect::ClearCurrentConnection,
                    SessionEffect::Emit(UserEvent::NeovimExited),
                ]
            }
            &&& state.has_stderr_task ==> {
                &&& torn.phase is Draining
                &&& state.effects(MonitorInput::PingTimedOut) == seq![
                    SessionEffect::AbortReadLoop,
                ]
                &&& torn.next(answer).phase is Finished
                &&& torn.effects(answer) == seq![
                    SessionEffect::ClearCurrentConnection,
                    SessionEffect::Emit(UserEvent::NeovimExited),
                ]
            }
        }),
{
    let torn = state.next(MonitorInput::PingTimedOut);
    let answer = if drained {
        MonitorInput::StderrDrained
    } else {
        MonitorInput::DrainTimedOut
    };
    if state.has_stderr_task {
        assert(state.effects(MonitorInput::PingTimedOut) =~= seq![SessionEffect::AbortReadLoop]);
        assert(torn.effects(answer) =~= closing_effects());
    } else {
        assert(state.effects(MonitorInput::PingTimedOut) =~= seq![
            SessionEffect::AbortReadLoop,
            SessionEffect::ClearCurrentConnection,
            SessionEffect::Emit(UserEvent::NeovimExited),
        ]);
    }
}

/// The wait for the relay is bounded by half a second, and the shutdown
/// goes on whether the relay finished or not: either answer closes the
/// session.
pub proof fn lemma_drain_is_bounded(state: ServerMonitor)
    requires
        state.phase is Draining,
    ensures
        state.pending() == (MonitorAction::DrainStderr { timeout_millis: 500 }),
        state.next(MonitorInput::StderrDrained).phase is Finished,
        state.next(MonitorInput::DrainTimedOut).phase is Finished,
        state.effects(MonitorInput::StderrDrained) == closing_effects(),
        state.effects(MonitorInput::DrainTimedOut) == closing_effects(),
{
    assert(state.effects(MonitorInput::StderrDrained) =~= closing_effects());
    assert(state.effects(MonitorInput::DrainTimedOut) =~= closing_effects());
}

/// What one input asks for announces the exit once where the watch
/// finishes on it, and not at all elsewhere.
pub proof fn lemma_step_announces(state: ServerMonitor, input: MonitorInput)
    ensures
        exits_announced(state.effects(input)) == (if state.next(input).phase is Finished && !(
        state.phase is Finished) {
            1nat
        } else {
            0nat
        }),
{
    lemma_closing_effects_announce_once();
    let abort = if state.phase is Pinging && input is PingTimedOut {
        seq![SessionEffect::AbortReadLoop]
    } else {
        Seq::empty()
    };
    let close = if state.next(input).phase is Finished && !(state.phase is Finished) {
        closing_effects()
    } else {
        Seq::empty()
    };
    lemma_exits_announced_concat(abort, close);
}

/// The exit of the session is announced exactly once: whatever is reported
/// to a watch, and in whatever order, `NeovimExited` has been sent once when
/// the watch has finished, and not before.
pub proof fn lemma_exit_announced_once(state: ServerMonitor, inputs: Seq<MonitorInput>)
    requires
        !(state.phase is Finished),
    ensures
        exits_announced(state.run_effects(inputs)) == (if state.run(inputs).phase is Finished {
            1nat
        } else {
            0nat
        }),
    decreases inputs.len(),
{
    if inputs.len() == 0 {
        lemma_closing_effects_announce_once();
    } else {
        let after = state.next(inputs.first());
        lemma_step_announces(state, inputs.first());
        lemma_exits_announced_concat(
            state.effects(inputs.first()),
            after.run_effects(inputs.drop_first()),
        );
        if after.phase is Finished {
            lemma_terminal_absorbs(after, inputs.drop_first());
            lemma_closing_effects_announce_once();
        } else {
            lemma_exit_announced_once(after, inputs.drop_first());
        }
    }
}

} // verus!

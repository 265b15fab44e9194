//! Watching a session that is not reconnected: wait until the transport has
//! closed or the backend process has exited, then close the session. Some
//! backends exit without closing their streams, so after the exit of the
//! process the transport gets half a second more, and no longer.
//!
//! Waiting is the caller's work. [`SessionRun::step`] takes each outcome and
//! gives the effects to carry out, and [`SessionRun::action`] names what to
//! wait for next.

use crate::events::UserEvent;
use crate::session::{
    close_session,
    closing_effects,
    exits_announced,
    lemma_closing_effects_announce_once,
    lemma_exits_announced_concat,
    SessionEffect,
    DRAIN_TIMEOUT_MS,
};
use vstd::prelude::*;

verus! {

/// What the run is waiting for.
#[derive(Debug, Clone, Copy, PartialEq, Eq)]
pub enum RunPhase {
    /// The transport to close, or the process to exit.
    Running,
    /// The transport to close after the process has exited.
    Lingering,
    /// The relay of the error stream to finish.
    Draining,
    /// Nothing: the session has ended. Terminal.
    Finished,
}

/// What the caller reports back.
#[derive(Debug, Clone, Copy, PartialEq, Eq)]
pub enum RunInput {
    /// The read loop has ended.
    TransportClosed,
    /// The backend process has exited.
    ProcessExited,
    /// The transport did not close in time after the exit of the process.
    LingerTimedOut,
    /// The relay of the error stream has finished.
    StderrDrained,
    /// The relay did not finish in time.
    DrainTimedOut,
}

/// The one thing the caller has to do next.
#[derive(Debug, Clone, Copy, PartialEq, Eq)]
pub enum RunAction {
    /// Wait for the transport to close; report `TransportClosed`.
    WaitForClose,
    /// Wait for the transport to close or the process to exit, whichever
    /// comes first; report `TransportClosed` or `ProcessExited`.
    WaitForCloseOrExit,
    /// Wait at most `timeout_millis` milliseconds for the transport to
    /// close; report `TransportClosed` or `LingerTimedOut`.
    WaitForCloseWithin { timeout_millis: u64 },
    /// Wait at most `timeout_millis` milliseconds for the relay, then drop
    /// it; report `StderrDrained` or `DrainTimedOut`.
    DrainStderr { timeout_millis: u64 },
    /// Nothing: the session has ended.
    Done,
}

/// The state of the watch over one session that ends for good.
pub struct SessionRun {
    /// The session owns the process of its backend.
    pub has_process: bool,
    /// The session has a relay for the error stream of its backend.
    pub has_stderr_task: bool,
    pub phase: RunPhase,
}

impl SessionRun {
    /// The state a run starts in.
    pub open spec fn initial(has_process: bool, has_stderr_task: bool) -> Self {
        SessionRun { has_process, has_stderr_task, phase: RunPhase::Running }
    }

    /// The input ends the wait for the backend: the transport has closed,
    /// or the time it had after the exit of the process is over.
    pub open spec fn ends_connection(self, input: RunInput) -> bool {
        (self.phase is Running && input is TransportClosed) || (self.phase is Lingering && (input
            is TransportClosed || input is LingerTimedOut))
    }

    /// The input ends the wait for the relay.
    pub open spec fn ends_drain(self, input: RunInput) -> bool {
        self.phase is Draining && (input is StderrDrained || input is DrainTimedOut)
    }

    /// The state that follows `self` on `input`. An input that does not
    /// answer the pending action leaves the state as it is.
    pub open spec fn next(self, input: RunInput) -> Self {
        if self.ends_connection(input) {
            SessionRun {
                phase: if self.has_stderr_task {
                    RunPhase::Draining
                } else {
                    RunPhase::Finished
                },
                ..self
            }
        } else if self.ends_drain(input) {
            SessionRun { phase: RunPhase::Finished, ..self }
        } else if self.phase is Running && self.has_process && input is ProcessExited {
            SessionRun { phase: RunPhase::Lingering, ..self }
        } else {
            self
        }
    }

    /// The effects to carry out on `input`, in order: the session is closed
    /// where the run finishes.
    pub open spec fn effects(self, input: RunInput) -> Seq<SessionEffect> {
        if self.next(input).phase is Finished && !(self.phase is Finished) {
            closing_effects()
        } else {
            Seq::empty()
        }
    }

    /// The action that the state is waiting on.
    pub open spec fn pending(self) -> RunAction {
        match self.phase {
            RunPhase::Running => if self.has_process {
                RunAction::WaitForCloseOrExit
            } else {
                RunAction::WaitForClose
            },
            RunPhase::Lingering => RunAction::WaitForCloseWithin { timeout_millis: 500 },
            RunPhase::Draining => RunAction::DrainStderr { timeout_millis: 500 },
            RunPhase::Finished => RunAction::Done,
        }
    }

    /// The state after the inputs of `inputs` were taken one by one.
    pub open spec fn run(self, inputs: Seq<RunInput>) -> Self
        decreases inputs.len(),
    {
        if inputs.len() == 0 {
            self
        } else {
            self.next(inputs.first()).run(inputs.drop_first())
        }
    }

    /// Every effect asked for while the inputs of `inputs` were taken, in
    /// order.
    pub open spec fn run_effects(self, inputs: Seq<RunInput>) -> Seq<SessionEffect>
        decreases inputs.len(),
    {
        if inputs.len() == 0 {
            Seq::empty()
        } else {
            self.effects(inputs.first()) + self.next(inputs.first()).run_effects(
                inputs.drop_first(),
            )
        }
    }

    /// A run for a session that has just been attached.
    pub fn new(has_process: bool, has_stderr_task: bool) -> (run: Self)
        ensures
            run == Self::initial(has_process, has_stderr_task),
    {
        SessionRun { has_process, has_stderr_task, phase: RunPhase::Running }
    }

    /// What the caller has to do next.
    pub fn action(&self) -> (action: RunAction)
        ensures
            action == self.pending(),
    {
        match self.phase {
            RunPhase::Running => if self.has_process {
                RunAction::WaitForCloseOrExit
            } else {
                RunAction::WaitForClose
            },
            RunPhase::Lingering => RunAction::WaitForCloseWithin {
                timeout_millis: DRAIN_TIMEOUT_MS,
            },
            RunPhase::Draining => RunAction::DrainStderr { timeout_millis: DRAIN_TIMEOUT_MS },
            RunPhase::Finished => RunAction::Done,
        }
    }

    /// Takes `input` and returns the effects to carry out, in order.
    pub fn step(&mut self, input: RunInput) -> (effects: Vec<SessionEffect>)
        ensures
            *final(self) == old(self).next(input),
            effects@ == old(self).effects(input),
    {
        let mut effects: Vec<SessionEffect> = Vec::new();
        match (self.phase, input) {
            (RunPhase::Running, RunInput::TransportClosed) => {
                effects = self.end_connection();
            },
            (RunPhase::Lingering, RunInput::TransportClosed) => {
                effects = self.end_connection();
            },
            (RunPhase::Lingering, RunInput::LingerTimedOut) => {
                effects = self.end_connection();
            },
            (RunPhase::Draining, RunInput::StderrDrained) => {
                self.phase = RunPhase::Finished;
                effects = close_session();
            },
            (RunPhase::Draining, RunInput::DrainTimedOut) => {
                self.phase = RunPhase::Finished;
                effects = close_session();
            },
            (RunPhase::Running, RunInput::ProcessExited) => {
                if self.has_process {
                    self.phase = RunPhase::Lingering;
                }
            },
            _ => {},
        }
        assert(effects@ =~= old(self).effects(input));
        effects
    }

    /// The wait for the backend is over: wait for the relay where there is
    /// one, close the session where there is none.
    fn end_connection(&mut self) -> (effects: Vec<SessionEffect>)
        ensures
            final(self).has_stderr_task == old(self).has_stderr_task,
            final(self).has_process == old(self).has_process,
            old(self).has_stderr_task ==> final(self).phase is Draining && effects@ == Seq::<
                SessionEffect,
            >::empty(),
            !old(self).has_stderr_task ==> final(self).phase is Finished && effects@
                == closing_effects(),
    {
        if self.has_stderr_task {
            self.phase = RunPhase::Draining;
            Vec::new()
        } else {
            self.phase = RunPhase::Finished;
            close_session()
        }
    }
}

/// A run that has finished stays finished and asks for nothing more.
pub proof fn lemma_terminal_absorbs(state: SessionRun, inputs: Seq<RunInput>)
    requires
        state.phase is Finished,
    ensures
        state.run(inputs) == state,
        state.run_effects(inputs) == Seq::<SessionEffect>::empty(),
    decreases inputs.len(),
{
    if inputs.len() > 0 {
        lemma_terminal_absorbs(state, inputs.drop_first());
        assert(state.effects(inputs.first()) + Seq::<SessionEffect>::empty() =~= Seq::<
            SessionEffect,
        >::empty());
    }
}

/// After the exit of the process the transport gets half a second to
/// close. Whether it closes or not, the run goes on to the end of the
/// session.
pub proof fn lemma_linger_is_bounded(state: SessionRun)
    requires
        state.phase is Running,
        state.has_process,
    ensures
        ({
            let lingering = state.next(RunInput::ProcessExited);
            &&& state.pending() == RunAction::WaitForCloseOrExit
            &&& lingering.pending() == RunAction::WaitForCloseWithin { timeout_millis: 500 }
            &&& lingering.next(RunInput::TransportClosed) == state.next(
                RunInput::TransportClosed,
            )
            &&& lingering.next(RunInput::LingerTimedOut) == state.next(RunInput::TransportClosed)
            &&& !(state.next(RunInput::TransportClosed).phase is Running)
            &&& !(state.next(RunInput::TransportClosed).phase is Lingering)
        }),
{
}

/// The wait for the relay is bounded by half a second, and the shutdown
/// goes on whether the relay finished or not: either answer closes the
/// session.
pub proof fn lemma_drain_is_bounded(state: SessionRun)
    requires
        state.phase is Draining,
    ensures
        state.pending() == (RunAction::DrainStderr { timeout_millis: 500 }),
        state.next(RunInput::StderrDrained).phase is Finished,
        state.next(RunInput::DrainTimedOut).phase is Finished,
        state.effects(RunInput::StderrDrained) == closing_effects(),
        state.effects(RunInput::DrainTimedOut) == closing_effects(),
{
}

/// A session without a relay is closed as soon as its backend is gone: the
/// reference to it is cleared, then its exit is announced.
pub proof fn lemma_close_without_relay(state: SessionRun, input: RunInput)
    requires
        !state.has_stderr_task,
        state.ends_connection(input),
    ensures
        state.next(input).phase is Finished,
        state.effects(input) == seq![
            SessionEffect::ClearCurrentConnection,
            SessionEffect::Emit(UserEvent::NeovimExited),
        ],
{
    assert(state.effects(input) =~= seq![
        SessionEffect::ClearCurrentConnection,
        SessionEffect::Emit(UserEvent::NeovimExited),
    ]);
}

/// The exit of the session is announced exactly once: whatever is reported
/// to a run, and in whatever order, `NeovimExited` has been sent once when
/// the run has finished, and not before. A run never starts over.
pub proof fn lemma_exit_announced_once(state: SessionRun, inputs: Seq<RunInput>)
    requires
        !(state.phase is Finished),
    ensures
        exits_announced(state.run_effects(inputs)) == (if state.run(inputs).phase is Finished {
            1nat
        } else {
            0nat
        }),
    decreases inputs.len(),
{
    lemma_closing_effects_announce_once();
    if inputs.len() > 0 {
        let after = state.next(inputs.first());
        lemma_exits_announced_concat(
            state.effects(inputs.first()),
            after.run_effects(inputs.drop_first()),
        );
        if after.phase is Finished {
            lemma_terminal_absorbs(after, inputs.drop_first());
        } else {
            lemma_exit_announced_once(after, inputs.drop_first());
        }
    }
}

} // verus!

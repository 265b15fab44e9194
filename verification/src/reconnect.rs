//! The reconnect loop of a server connection: try to connect, announce each
//! failure with the delay that follows it, wait, double the delay, and stop
//! as soon as a quit is seen.
//!
//! The loop itself waits on the network and on timers, so it is run by the
//! caller. What it decides is here: [`ReconnectSupervisor::step`] takes what
//! just happened and gives the events to send, and
//! [`ReconnectSupervisor::action`] names the one thing to do next.

use crate::backoff::{backoff_after, doubled, lemma_backoff_bounded, next_backoff, BASE_BACKOFF_SECS};
use crate::events::UserEvent;
use crate::running_tracker::RunningTracker;
use vstd::prelude::*;

verus! {

/// Where the loop stands, named by what it is waiting for.
#[derive(Debug, Clone, Copy, PartialEq, Eq)]
pub enum ReconnectPhase {
    /// At the top of the loop: the quit flag has to be read.
    Polling,
    /// A connection attempt is under way.
    Connecting,
    /// The last attempt failed and the delay is running.
    Sleeping,
    /// Connected: the session is being watched.
    Monitoring,
    /// A quit was seen. Terminal.
    Stopped,
    /// The watched session has ended. Terminal.
    Finished,
}

/// What the caller reports back to the loop.
#[derive(Debug, Clone, Copy, PartialEq, Eq)]
pub enum ReconnectInput {
    /// The quit flag was read.
    QuitPolled { quit_requested: bool },
    /// The attempt produced an attached session.
    LaunchSucceeded,
    /// The attempt failed, at whatever step.
    LaunchFailed,
    /// The delay is over.
    SleepElapsed,
    /// The watched session has ended.
    SessionEnded,
}

/// The one thing the caller has to do next.
#[derive(Debug, Clone, Copy, PartialEq, Eq)]
pub enum ReconnectAction {
    /// Read the quit flag and report `QuitPolled`.
    PollQuit,
    /// Create a session and run the handshake; report `LaunchSucceeded` or
    /// `LaunchFailed`.
    Launch,
    /// Wait `secs` seconds and report `SleepElapsed`.
    Sleep { secs: u64 },
    /// Watch the session until it ends and report `SessionEnded`.
    Monitor,
    /// Nothing: the loop is over.
    Done,
}

/// The state of one reconnect loop.
pub struct ReconnectSupervisor {
    /// The server that is dialled.
    pub address: String,
    /// The current delay in seconds.
    pub wait: u64,
    /// How many attempts were started. Stops counting at `u64::MAX`.
    pub attempts: u64,
    /// What the loop is waiting for.
    pub phase: ReconnectPhase,
}

/// `count` plus one, or `count` where that is the largest number.
pub open spec fn counted_up(count: u64) -> u64 {
    if count < u64::MAX {
        (count + 1) as u64
    } else {
        count
    }
}

impl ReconnectSupervisor {
    /// The state a loop for `address` starts in.
    pub open spec fn initial(address: String) -> Self {
        ReconnectSupervisor { address, wait: 1, attempts: 0, phase: ReconnectPhase::Polling }
    }

    /// The delay is within its bounds.
    pub open spec fn well_formed(self) -> bool {
        1 <= self.wait <= 30
    }

    /// The loop has ended: no input changes the state any more.
    pub open spec fn is_terminal(self) -> bool {
        self.phase is Stopped || self.phase is Finished
    }

    /// The state that follows `self` on `input`. An input that does not
    /// answer the pending action leaves the state as it is.
    pub open spec fn next(self, input: ReconnectInput) -> Self {
        match (self.phase, input) {
            (ReconnectPhase::Polling, ReconnectInput::QuitPolled { quit_requested }) => {
                if quit_requested {
                    ReconnectSupervisor { phase: ReconnectPhase::Stopped, ..self }
                } else {
                    ReconnectSupervisor {
                        phase: ReconnectPhase::Connecting,
                        attempts: counted_up(self.attempts),
                        ..self
                    }
                }
            },
            (ReconnectPhase::Connecting, ReconnectInput::LaunchSucceeded) => {
                ReconnectSupervisor { phase: ReconnectPhase::Monitoring, wait: 1, ..self }
            },
            (ReconnectPhase::Connecting, ReconnectInput::LaunchFailed) => {
                ReconnectSupervisor { phase: ReconnectPhase::Sleeping, ..self }
            },
            (ReconnectPhase::Sleeping, ReconnectInput::SleepElapsed) => {
                ReconnectSupervisor {
                    phase: ReconnectPhase::Polling,
                    wait: doubled(self.wait as int) as u64,
                    ..self
                }
            },
            (ReconnectPhase::Monitoring, ReconnectInput::SessionEnded) => {
                ReconnectSupervisor { phase: ReconnectPhase::Finished, ..self }
            },
            _ => self,
        }
    }

    /// The events sent on `input`, in order.
    pub open spec fn emitted(self, input: ReconnectInput) -> Seq<UserEvent> {
        match (self.phase, input) {
            (ReconnectPhase::Connecting, ReconnectInput::LaunchSucceeded) => {
                seq![UserEvent::ReconnectStop, UserEvent::RedrawRequested]
            },
            (ReconnectPhase::Connecting, ReconnectInput::LaunchFailed) => {
                seq![
                    UserEvent::ReconnectStart { address: self.address, wait: self.wait },
                    UserEvent::RedrawRequested,
                ]
            },
            _ => Seq::empty(),
        }
    }

    /// The action that the state is waiting on.
    pub open spec fn pending(self) -> ReconnectAction {
        match self.phase {
            ReconnectPhase::Polling => ReconnectAction::PollQuit,
            ReconnectPhase::Connecting => ReconnectAction::Launch,
            ReconnectPhase::Sleeping => ReconnectAction::Sleep { secs: self.wait },
            ReconnectPhase::Monitoring => ReconnectAction::Monitor,
            ReconnectPhase::Stopped => ReconnectAction::Done,
            ReconnectPhase::Finished => ReconnectAction::Done,
        }
    }

    /// The state after the inputs of `inputs` were taken one by one.
    pub open spec fn run(self, inputs: Seq<ReconnectInput>) -> Self
        decreases inputs.len(),
    {
        if inputs.len() == 0 {
            self
        } else {
            self.next(inputs.first()).run(inputs.drop_first())
        }
    }

    /// Every event sent while the inputs of `inputs` were taken, in order.
    pub open spec fn run_events(self, inputs: Seq<ReconnectInput>) -> Seq<UserEvent>
        decreases inputs.len(),
    {
        if inputs.len() == 0 {
            Seq::empty()
        } else {
            self.emitted(inputs.first()) + self.next(inputs.first()).run_events(
                inputs.drop_first(),
            )
        }
    }

    /// One round that fails: no quit is seen, the attempt fails, the delay
    /// runs out.
    pub open spec fn failed_round(self) -> Self {
        self.next(ReconnectInput::QuitPolled { quit_requested: false }).next(
            ReconnectInput::LaunchFailed,
        ).next(ReconnectInput::SleepElapsed)
    }

    /// The state after `rounds` failed rounds in a row.
    pub open spec fn after_failures(self, rounds: nat) -> Self
        decreases rounds,
    {
        if rounds == 0 {
            self
        } else {
            self.after_failures((rounds - 1) as nat).failed_round()
        }
    }

    /// A loop for `address`, at the base delay, about to read the quit flag.
    pub fn new(address: String) -> (supervisor: Self)
        ensures
            supervisor == Self::initial(address),
            supervisor.well_formed(),
    {
        ReconnectSupervisor {
            address,
            wait: BASE_BACKOFF_SECS,
            attempts: 0,
            phase: ReconnectPhase::Polling,
        }
    }

    /// What the caller has to do next.
    pub fn action(&self) -> (action: ReconnectAction)
        ensures
            action == self.pending(),
    {
        match self.phase {
            ReconnectPhase::Polling => ReconnectAction::PollQuit,
            ReconnectPhase::Connecting => ReconnectAction::Launch,
            ReconnectPhase::Sleeping => ReconnectAction::Sleep { secs: self.wait },
            ReconnectPhase::Monitoring => ReconnectAction::Monitor,
            ReconnectPhase::Stopped => ReconnectAction::Done,
            ReconnectPhase::Finished => ReconnectAction::Done,
        }
    }

    /// Takes `input` and returns the events to send, in order.
    pub fn step(&mut self, input: ReconnectInput) -> (events: Vec<UserEvent>)
        ensures
            *final(self) == old(self).next(input),
            events@ == old(self).emitted(input),
            old(self).well_formed() ==> final(self).well_formed(),
    {
        let mut events: Vec<UserEvent> = Vec::new();
        match (self.phase, input) {
            (ReconnectPhase::Polling, ReconnectInput::QuitPolled { quit_requested }) => {
                if quit_requested {
                    self.phase = ReconnectPhase::Stopped;
                } else {
                    if self.attempts < u64::MAX {
                        self.attempts = self.attempts + 1;
                    }
                    self.phase = ReconnectPhase::Connecting;
                }
            },
            (ReconnectPhase::Connecting, ReconnectInput::LaunchSucceeded) => {
                self.wait = BASE_BACKOFF_SECS;
                self.phase = ReconnectPhase::Monitoring;
                events.push(UserEvent::ReconnectStop);
                events.push(UserEvent::RedrawRequested);
            },
            (ReconnectPhase::Connecting, ReconnectInput::LaunchFailed) => {
                self.phase = ReconnectPhase::Sleeping;
                events.push(
                    UserEvent::ReconnectStart { address: self.address.clone(), wait: self.wait },
                );
                events.push(UserEvent::RedrawRequested);
            },
            (ReconnectPhase::Sleeping, ReconnectInput::SleepElapsed) => {
                self.wait = next_backoff(self.wait);
                self.phase = ReconnectPhase::Polling;
            },
            (ReconnectPhase::Monitoring, ReconnectInput::SessionEnded) => {
                self.phase = ReconnectPhase::Finished;
            },
            _ => {},
        }
        assert(events@ =~= old(self).emitted(input));
        events
    }

    /// Reads the quit flag of `tracker` and takes the answer as input.
    /// Whatever the flag held, the state that follows is the one `next`
    /// gives for it, and nothing is sent.
    pub fn poll(&mut self, tracker: &RunningTracker) -> (quit_requested: bool)
        ensures
            *final(self) == old(self).next(ReconnectInput::QuitPolled { quit_requested }),
            old(self).phase is Polling && quit_requested ==> final(self).phase is Stopped,
    {
        let quit_requested = tracker.quit_requested();
        let _events = self.step(ReconnectInput::QuitPolled { quit_requested });
        quit_requested
    }
}

/// No input moves the delay out of its bounds.
pub proof fn lemma_next_keeps_bounds(state: ReconnectSupervisor, input: ReconnectInput)
    requires
        state.well_formed(),
    ensures
        state.next(input).well_formed(),
{
}

/// Whatever the inputs, the delay of a loop never leaves its bounds: it is
/// never above the cap.
pub proof fn lemma_run_keeps_bounds(state: ReconnectSupervisor, inputs: Seq<ReconnectInput>)
    requires
        state.well_formed(),
    ensures
        state.run(inputs).well_formed(),
        state.run(inputs).wait <= 30,
    decreases inputs.len(),
{
    if inputs.len() > 0 {
        lemma_next_keeps_bounds(state, inputs.first());
        lemma_run_keeps_bounds(state.next(inputs.first()), inputs.drop_first());
    }
}

/// No sleep of the loop is longer than the cap: whatever was reported
/// before, the delay that a new loop asks for is at most thirty seconds.
pub proof fn lemma_sleep_is_bounded(address: String, inputs: Seq<ReconnectInput>)
    ensures
        ({
            let state = ReconnectSupervisor::initial(address).run(inputs);
            state.pending() matches ReconnectAction::Sleep { secs } ==> 1 <= secs <= 30
        }),
{
    lemma_run_keeps_bounds(ReconnectSupervisor::initial(address), inputs);
}

/// Within one episode the delay never gets shorter: only a successful
/// attempt lowers it.
pub proof fn lemma_wait_never_shrinks(state: ReconnectSupervisor, input: ReconnectInput)
    requires
        state.well_formed(),
        !(state.phase is Connecting && input is LaunchSucceeded),
    ensures
        state.wait <= state.next(input).wait,
{
}

/// After `rounds` failed rounds a new loop is back at the top with the delay
/// of the doubling sequence, and the failure that comes next announces that
/// delay and then waits exactly as long: 1, 2, 4, 8, 16, 30, 30, ...
pub proof fn lemma_failures_follow_backoff(address: String, rounds: nat)
    ensures
        ({
            let state = ReconnectSupervisor::initial(address).after_failures(rounds);
            let polled = state.next(ReconnectInput::QuitPolled { quit_requested: false });
            &&& state.phase is Polling
            &&& state.address == address
            &&& state.wait == backoff_after(rounds)
            &&& polled.pending() == ReconnectAction::Launch
            &&& polled.emitted(ReconnectInput::LaunchFailed) == seq![
                UserEvent::ReconnectStart { address, wait: backoff_after(rounds) as u64 },
                UserEvent::RedrawRequested,
            ]
            &&& polled.next(ReconnectInput::LaunchFailed).pending() == (ReconnectAction::Sleep {
                secs: backoff_after(rounds) as u64,
            })
        }),
    decreases rounds,
{
    lemma_backoff_bounded(rounds);
    if rounds > 0 {
        lemma_failures_follow_backoff(address, (rounds - 1) as nat);
        lemma_backoff_bounded((rounds - 1) as nat);
    }
}

/// A successful attempt puts the delay back to the base, sends
/// `ReconnectStop` and a redraw request, and hands over to the watching of
/// the session; when that session ends the loop is over, still at the base.
/// A loop that is started for the next disconnect begins at the base too.
pub proof fn lemma_success_resets_backoff(state: ReconnectSupervisor, address: String)
    requires
        state.phase is Connecting,
    ensures
        ({
            let connected = state.next(ReconnectInput::LaunchSucceeded);
            &&& connected.wait == 1
            &&& connected.pending() == ReconnectAction::Monitor
            &&& state.emitted(ReconnectInput::LaunchSucceeded) == seq![
                UserEvent::ReconnectStop,
                UserEvent::RedrawRequested,
            ]
            &&& connected.next(ReconnectInput::SessionEnded).phase is Finished
            &&& connected.next(ReconnectInput::SessionEnded).wait == 1
        }),
        ReconnectSupervisor::initial(address).wait == 1,
{
}

/// Once `ReconnectStart` was sent the loop cannot fall silent. It sleeps,
/// then reads the quit flag; on a quit it stops, and otherwise it makes an
/// attempt whose success sends `ReconnectStop` and whose failure sends the
/// next `ReconnectStart`.
pub proof fn lemma_reconnect_start_is_followed(
    state: ReconnectSupervisor,
    input: ReconnectInput,
    quit_requested: bool,
)
    requires
        state.emitted(input).len() > 0,
        state.emitted(input)[0] is ReconnectStart,
    ensures
        ({
            let sleeping = state.next(input);
            let woken = sleeping.next(ReconnectInput::SleepElapsed);
            let polled = woken.next(ReconnectInput::QuitPolled { quit_requested });
            &&& sleeping.pending() == ReconnectAction::Sleep { secs: state.wait }
            &&& woken.pending() == ReconnectAction::PollQuit
            &&& quit_requested ==> polled.phase is Stopped
            &&& !quit_requested ==> {
                &&& polled.pending() == ReconnectAction::Launch
                &&& polled.emitted(ReconnectInput::LaunchSucceeded)[0] is ReconnectStop
                &&& polled.emitted(ReconnectInput::LaunchFailed)[0] is ReconnectStart
            }
        }),
{
}

/// A quit that is requested while the loop sleeps ends it when the delay is
/// over: the flag is read before anything else, the loop stops, no event is
/// sent and no further attempt is started, whatever is reported afterwards.
pub proof fn lemma_quit_while_sleeping_stops(
    state: ReconnectSupervisor,
    later: Seq<ReconnectInput>,
)
    requires
        state.phase is Sleeping,
    ensures
        ({
            let woken = state.next(ReconnectInput::SleepElapsed);
            let stopped = woken.next(ReconnectInput::QuitPolled { quit_requested: true });
            &&& woken.pending() == ReconnectAction::PollQuit
            &&& state.emitted(ReconnectInput::SleepElapsed) == Seq::<UserEvent>::empty()
            &&& woken.emitted(ReconnectInput::QuitPolled { quit_requested: true }) == Seq::<
                UserEvent,
            >::empty()
            &&& stopped.phase is Stopped
            &&& stopped.pending() == ReconnectAction::Done
            &&& stopped.attempts == state.attempts
            &&& stopped.run(later) == stopped
            &&& stopped.run_events(later) == Seq::<UserEvent>::empty()
        }),
{
    let stopped = state.next(ReconnectInput::SleepElapsed).next(
        ReconnectInput::QuitPolled { quit_requested: true },
    );
    lemma_terminal_absorbs(stopped, later);
}

/// A loop that has ended stays as it is and sends nothing, whatever is
/// reported to it.
pub proof fn lemma_terminal_absorbs(state: ReconnectSupervisor, inputs: Seq<ReconnectInput>)
    requires
        state.is_terminal(),
    ensures
        state.run(inputs) == state,
        state.run_events(inputs) == Seq::<UserEvent>::empty(),
    decreases inputs.len(),
{
    if inputs.len() > 0 {
        lemma_terminal_absorbs(state, inputs.drop_first());
        assert(state.emitted(inputs.first()) + Seq::<UserEvent>::empty() =~= Seq::<
            UserEvent,
        >::empty());
    }
}

/// A quit that is seen at the top of the loop ends it at once: nothing is
/// sent and no attempt is made.
pub proof fn lemma_quit_stops_before_attempt(state: ReconnectSupervisor)
    requires
        state.phase is Polling,
    ensures
        ({
            let stopped = state.next(ReconnectInput::QuitPolled { quit_requested: true });
            &&& stopped.phase is Stopped
            &&& stopped.attempts == state.attempts
            &&& state.emitted(ReconnectInput::QuitPolled { quit_requested: true }) == Seq::<
                UserEvent,
            >::empty()
        }),
{
}

} // verus!

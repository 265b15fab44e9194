//! The version check that opens the handshake: ask the backend for its
//! version up to five times, half a second apart, and take the first answer
//! that is new enough.
//!
//! Asking and waiting are the caller's work. [`VersionCheck::step`] takes
//! each outcome and [`VersionCheck::action`] names what to do next.

use crate::api_info::ApiInformation;
use vstd::prelude::*;

verus! {

/// How many times the backend is asked at most.
pub const MAX_VERSION_ATTEMPTS: u64 = 5;

/// The pause between two attempts, in milliseconds.
pub const VERSION_RETRY_DELAY_MS: u64 = 500;

/// Where the check stands.
#[derive(Debug, Clone, Copy, PartialEq, Eq)]
pub enum VersionCheckPhase {
    /// The backend has been asked; the answer is awaited.
    Querying,
    /// The last attempt gave nothing usable; the pause runs.
    Waiting,
    /// An answer was new enough. Terminal.
    Accepted,
    /// Every attempt was used up. Terminal.
    Rejected,
}

/// What the caller reports back.
#[derive(Debug, Clone, Copy, PartialEq, Eq)]
pub enum VersionReply {
    /// The backend answered.
    Answered(ApiInformation),
    /// The request failed.
    Errored,
    /// The pause is over.
    DelayElapsed,
}

/// The one thing the caller has to do next.
#[derive(Debug, Clone, Copy, PartialEq, Eq)]
pub enum VersionAction {
    /// Ask the backend and report `Answered` or `Errored`.
    Query,
    /// Wait `millis` milliseconds and report `DelayElapsed`.
    Sleep { millis: u64 },
    /// Go on with this information: the version is supported.
    Accept(ApiInformation),
    /// Give up: the backend is too old, or never answered.
    Reject,
}

/// The state of one version check.
pub struct VersionCheck {
    /// How many attempts have been answered.
    pub attempts: u64,
    pub phase: VersionCheckPhase,
    /// The accepted answer, once there is one.
    pub accepted: Option<ApiInformation>,
}

/// The reply is an answer with a supported version.
pub open spec fn is_acceptable(reply: VersionReply) -> bool {
    reply matches VersionReply::Answered(info) && info.version.is_supported()
}

/// The reply ends an attempt without a supported version.
pub open spec fn is_refusal(reply: VersionReply) -> bool {
    (reply is Answered || reply is Errored) && !is_acceptable(reply)
}

impl VersionCheck {
    /// The state a check starts in: the first attempt is under way.
    pub open spec fn initial() -> Self {
        VersionCheck { attempts: 0, phase: VersionCheckPhase::Querying, accepted: None }
    }

    /// What holds of every state that a check can reach.
    pub open spec fn well_formed(self) -> bool {
        &&& self.attempts <= 5
        &&& self.phase is Querying ==> self.attempts < 5 && self.accepted is None
        &&& self.phase is Waiting ==> 1 <= self.attempts < 5 && self.accepted is None
        &&& self.phase is Rejected ==> self.attempts == 5 && self.accepted is None
        &&& self.phase is Accepted ==> {
            &&& 1 <= self.attempts
            &&& self.accepted is Some
            &&& self.accepted->0.version.is_supported()
        }
    }

    /// The check is over.
    pub open spec fn is_terminal(self) -> bool {
        self.phase is Accepted || self.phase is Rejected
    }

    /// The number of answered attempts once one more is counted.
    pub open spec fn attempts_with_this_one(self) -> u64 {
        if self.attempts < 5 {
            (self.attempts + 1) as u64
        } else {
            self.attempts
        }
    }

    /// The state that follows `self` on `reply`. A reply that does not
    /// answer the pending action leaves the state as it is.
    pub open spec fn next(self, reply: VersionReply) -> Self {
        match (self.phase, reply) {
            (VersionCheckPhase::Querying, VersionReply::Answered(info)) => {
                if info.version.is_supported() {
                    VersionCheck {
                        attempts: self.attempts_with_this_one(),
                        phase: VersionCheckPhase::Accepted,
                        accepted: Some(info),
                    }
                } else {
                    self.refused()
                }
            },
            (VersionCheckPhase::Querying, VersionReply::Errored) => self.refused(),
            (VersionCheckPhase::Waiting, VersionReply::DelayElapsed) => {
                VersionCheck { phase: VersionCheckPhase::Querying, ..self }
            },
            _ => self,
        }
    }

    /// The state after an attempt that gave no supported version: the pause
    /// before the next attempt, or the end after the last one.
    pub open spec fn refused(self) -> Self {
        VersionCheck {
            attempts: self.attempts_with_this_one(),
            phase: if self.attempts_with_this_one() >= 5 {
                VersionCheckPhase::Rejected
            } else {
                VersionCheckPhase::Waiting
            },
            ..self
        }
    }

    /// The action that the state is waiting on.
    pub open spec fn pending(self) -> VersionAction {
        match self.phase {
            VersionCheckPhase::Querying => VersionAction::Query,
            VersionCheckPhase::Waiting => VersionAction::Sleep { millis: 500 },
            VersionCheckPhase::Accepted => match self.accepted {
                Some(info) => VersionAction::Accept(info),
                None => VersionAction::Reject,
            },
            VersionCheckPhase::Rejected => VersionAction::Reject,
        }
    }

    /// The time that passes while `reply` is taken: the pause, where the
    /// reply ends one.
    pub open spec fn pause_ended_by(self, reply: VersionReply) -> int {
        if self.phase is Waiting && reply is DelayElapsed {
            500
        } else {
            0
        }
    }

    /// The state after the replies of `replies` were taken one by one.
    pub open spec fn run(self, replies: Seq<VersionReply>) -> Self
        decreases replies.len(),
    {
        if replies.len() == 0 {
            self
        } else {
            self.next(replies.first()).run(replies.drop_first())
        }
    }

    /// The pauses, added up, that passed while `replies` were taken.
    pub open spec fn run_pause(self, replies: Seq<VersionReply>) -> int
        decreases replies.len(),
    {
        if replies.len() == 0 {
            0
        } else {
            self.pause_ended_by(replies.first()) + self.next(replies.first()).run_pause(
                replies.drop_first(),
            )
        }
    }

    /// A check whose first attempt is under way.
    pub fn new() -> (check: Self)
        ensures
            check == Self::initial(),
            check.well_formed(),
    {
        VersionCheck { attempts: 0, phase: VersionCheckPhase::Querying, accepted: None }
    }

    /// What the caller has to do next.
    pub fn action(&self) -> (action: VersionAction)
        ensures
            action == self.pending(),
    {
        match self.phase {
            VersionCheckPhase::Querying => VersionAction::Query,
            VersionCheckPhase::Waiting => VersionAction::Sleep { millis: VERSION_RETRY_DELAY_MS },
            VersionCheckPhase::Accepted => match self.accepted {
                Some(info) => VersionAction::Accept(info),
                None => VersionAction::Reject,
            },
            VersionCheckPhase::Rejected => VersionAction::Reject,
        }
    }

    /// Takes `reply`.
    pub fn step(&mut self, reply: VersionReply)
        ensures
            *final(self) == old(self).next(reply),
            old(self).well_formed() ==> final(self).well_formed(),
    {
        match (self.phase, reply) {
            (VersionCheckPhase::Querying, VersionReply::Answered(info)) => {
                if info.version.supported() {
                    self.count_attempt();
                    self.phase = VersionCheckPhase::Accepted;
                    self.accepted = Some(info);
                } else {
                    self.refuse();
                }
            },
            (VersionCheckPhase::Querying, VersionReply::Errored) => {
                self.refuse();
            },
            (VersionCheckPhase::Waiting, VersionReply::DelayElapsed) => {
                self.phase = VersionCheckPhase::Querying;
            },
            _ => {},
        }
    }

    fn count_attempt(&mut self)
        ensures
            *final(self) == (VersionCheck {
                attempts: old(self).attempts_with_this_one(),
                ..*old(self)
            }),
    {
        if self.attempts < MAX_VERSION_ATTEMPTS {
            self.attempts = self.attempts + 1;
        }
    }

    fn refuse(&mut self)
        ensures
            *final(self) == old(self).refused(),
    {
        self.count_attempt();
        if self.attempts >= MAX_VERSION_ATTEMPTS {
            self.phase = VersionCheckPhase::Rejected;
        } else {
            self.phase = VersionCheckPhase::Waiting;
        }
    }
}

/// `refusals` as the caller reports them: each one followed by the end of
/// the pause.
pub open spec fn with_pauses(refusals: Seq<VersionReply>) -> Seq<VersionReply>
    decreases refusals.len(),
{
    if refusals.len() == 0 {
        Seq::empty()
    } else {
        seq![refusals.first(), VersionReply::DelayElapsed] + with_pauses(refusals.drop_first())
    }
}

/// No reply leads out of the states that a check can reach.
pub proof fn lemma_next_well_formed(state: VersionCheck, reply: VersionReply)
    requires
        state.well_formed(),
    ensures
        state.next(reply).well_formed(),
{
}

/// Whatever is reported, and in whatever order, a check asks at most five
/// times, and where it has accepted, it holds an answer whose version is
/// supported: 0.10.0 or newer.
pub proof fn lemma_run_well_formed(state: VersionCheck, replies: Seq<VersionReply>)
    requires
        state.well_formed(),
    ensures
        state.run(replies).well_formed(),
        state.run(replies).attempts <= 5,
        state.run(replies).phase is Accepted ==> {
            let info = state.run(replies).accepted->0;
            &&& state.run(replies).pending() == VersionAction::Accept(info)
            &&& info.version.at_least(0, 10, 0)
        },
    decreases replies.len(),
{
    if replies.len() > 0 {
        lemma_next_well_formed(state, replies.first());
        lemma_run_well_formed(state.next(replies.first()), replies.drop_first());
    }
}

/// A check accepts only on an answer with a supported version, and then
/// holds exactly that answer.
pub proof fn lemma_accepts_only_supported(state: VersionCheck, reply: VersionReply)
    requires
        !(state.phase is Accepted),
        state.next(reply).phase is Accepted,
    ensures
        is_acceptable(reply),
        state.next(reply).accepted == Some(reply->Answered_0),
        state.next(reply).pending() == VersionAction::Accept(reply->Answered_0),
{
}

/// Two attempts are at least half a second apart: a new attempt starts only
/// out of the pause, when the caller reports that its 500 ms are over.
pub proof fn lemma_attempts_are_spaced(state: VersionCheck, reply: VersionReply)
    requires
        !(state.phase is Querying),
        state.next(reply).phase is Querying,
    ensures
        state.phase is Waiting,
        state.pending() == (VersionAction::Sleep { millis: 500 }),
        reply is DelayElapsed,
        state.pause_ended_by(reply) == 500,
{
}

/// A check that is over stays as it is, and no time passes in it.
pub proof fn lemma_terminal_absorbs(state: VersionCheck, replies: Seq<VersionReply>)
    requires
        state.is_terminal(),
    ensures
        state.run(replies) == state,
        state.run_pause(replies) == 0,
    decreases replies.len(),
{
    if replies.len() > 0 {
        lemma_terminal_absorbs(state, replies.drop_first());
    }
}

/// While attempts are left, each refusal costs one attempt and one pause,
/// and the check then asks again.
pub proof fn lemma_refusals_are_retried(state: VersionCheck, refusals: Seq<VersionReply>)
    requires
        state.phase is Querying,
        state.attempts + refusals.len() < 5,
        forall|i: int| 0 <= i < refusals.len() ==> is_refusal(#[trigger] refusals[i]),
    ensures
        state.run(with_pauses(refusals)) == (VersionCheck {
            attempts: (state.attempts + refusals.len()) as u64,
            ..state
        }),
        state.run_pause(with_pauses(refusals)) == 500 * refusals.len(),
    decreases refusals.len(),
{
    if refusals.len() > 0 {
        let replies = with_pauses(refusals);
        let rest = refusals.drop_first();
        assert(is_refusal(refusals[0]));
        assert(replies.first() == refusals.first());
        assert(replies.drop_first() =~= seq![VersionReply::DelayElapsed] + with_pauses(rest));
        assert(replies.drop_first().first() == VersionReply::DelayElapsed);
        assert(replies.drop_first().drop_first() =~= with_pauses(rest));
        let waiting = state.next(refusals.first());
        let asking = waiting.next(VersionReply::DelayElapsed);
        assert(state.run(replies) == waiting.run(replies.drop_first()));
        assert(waiting.run(replies.drop_first()) == asking.run(with_pauses(rest)));
        assert(state.run_pause(replies) == waiting.run_pause(replies.drop_first()));
        assert(waiting.run_pause(replies.drop_first()) == 500 + asking.run_pause(
            with_pauses(rest),
        ));
        assert forall|i: int| 0 <= i < rest.len() implies is_refusal(#[trigger] rest[i]) by {
            assert(rest[i] == refusals[i + 1]);
        }
        lemma_refusals_are_retried(asking, rest);
    }
}

/// The first supported answer ends the check at once. After fewer than five
/// refusals, each followed by its pause, such an answer is accepted as it
/// is: no further attempt is made and no further pause runs.
pub proof fn lemma_first_success_is_accepted(refusals: Seq<VersionReply>, info: ApiInformation)
    requires
        refusals.len() < 5,
        forall|i: int| 0 <= i < refusals.len() ==> is_refusal(#[trigger] refusals[i]),
        info.version.is_supported(),
    ensures
        ({
            let asking = VersionCheck::initial().run(with_pauses(refusals));
            let accepted = asking.next(VersionReply::Answered(info));
            &&& asking.pending() == VersionAction::Query
            &&& VersionCheck::initial().run_pause(with_pauses(refusals)) == 500 * refusals.len()
            &&& accepted.phase is Accepted
            &&& accepted.attempts == refusals.len() + 1
            &&& accepted.pending() == VersionAction::Accept(info)
            &&& asking.pause_ended_by(VersionReply::Answered(info)) == 0
        }),
{
    lemma_refusals_are_retried(VersionCheck::initial(), refusals);
}

/// Five refusals use the check up. It has then asked five times, paused four
/// times, two seconds in all, and rejects the backend, whatever is reported
/// afterwards.
pub proof fn lemma_five_refusals_reject(refusals: Seq<VersionReply>, later: Seq<VersionReply>)
    requires
        refusals.len() == 5,
        forall|i: int| 0 <= i < refusals.len() ==> is_refusal(#[trigger] refusals[i]),
    ensures
        ({
            let rejected = VersionCheck::initial().run(with_pauses(refusals));
            &&& rejected.phase is Rejected
            &&& rejected.attempts == 5
            &&& rejected.pending() == VersionAction::Reject
            &&& VersionCheck::initial().run_pause(with_pauses(refusals)) == 2000
            &&& rejected.run(later) == rejected
        }),
{
    let first_four = refusals.take(4);
    let last = seq![refusals[4]];
    assert forall|i: int| 0 <= i < first_four.len() implies is_refusal(
        #[trigger] first_four[i],
    ) by {
        assert(first_four[i] == refusals[i]);
    }
    lemma_refusals_are_retried(VersionCheck::initial(), first_four);
    assert(refusals =~= first_four + last);
    lemma_with_pauses_concat(first_four, last);
    let asking = VersionCheck::initial().run(with_pauses(first_four));
    lemma_run_concat(VersionCheck::initial(), with_pauses(first_four), with_pauses(last));
    let tail = with_pauses(last);
    assert(is_refusal(refusals[4]));
    assert(last.drop_first() =~= Seq::<VersionReply>::empty());
    assert(with_pauses(last.drop_first()) =~= Seq::<VersionReply>::empty());
    assert(tail =~= seq![refusals[4], VersionReply::DelayElapsed]);
    assert(tail.first() == refusals[4]);
    assert(tail.drop_first() =~= seq![VersionReply::DelayElapsed]);
    assert(tail.drop_first().first() == VersionReply::DelayElapsed);
    assert(tail.drop_first().drop_first() =~= Seq::<VersionReply>::empty());
    let rejected = asking.next(refusals[4]);
    assert(rejected.phase is Rejected);
    assert(rejected.next(VersionReply::DelayElapsed) == rejected);
    assert(asking.run(tail) == rejected.run(tail.drop_first()));
    assert(rejected.run(tail.drop_first()) == rejected.run(tail.drop_first().drop_first()));
    assert(asking.run(tail) == rejected);
    assert(asking.run_pause(tail) == rejected.run_pause(tail.drop_first()));
    assert(rejected.run_pause(tail.drop_first()) == rejected.run_pause(
        tail.drop_first().drop_first(),
    ));
    lemma_terminal_absorbs(rejected, later);
}

/// Taking one list of replies after another is taking the two as one.
pub proof fn lemma_run_concat(
    state: VersionCheck,
    front: Seq<VersionReply>,
    back: Seq<VersionReply>,
)
    ensures
        state.run(front + back) == state.run(front).run(back),
        state.run_pause(front + back) == state.run_pause(front) + state.run(front).run_pause(
            back,
        ),
    decreases front.len(),
{
    if front.len() == 0 {
        assert(front + back =~= back);
    } else {
        assert((front + back).first() == front.first());
        assert((front + back).drop_first() =~= front.drop_first() + back);
        lemma_run_concat(state.next(front.first()), front.drop_first(), back);
    }
}

/// Pauses are put in refusal by refusal.
pub proof fn lemma_with_pauses_concat(front: Seq<VersionReply>, back: Seq<VersionReply>)
    ensures
        with_pauses(front + back) == with_pauses(front) + with_pauses(back),
    decreases front.len(),
{
    if front.len() == 0 {
        assert(front + back =~= back);
        assert(with_pauses(front) + with_pauses(back) =~= with_pauses(back));
    } else {
        assert((front + back).first() == front.first());
        assert((front + back).drop_first() =~= front.drop_first() + back);
        lemma_with_pauses_concat(front.drop_first(), back);
        assert(with_pauses(front + back) =~= with_pauses(front) + with_pauses(back));
    }
}

} // verus!

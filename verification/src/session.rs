//! What the watching of a live session asks of its caller when the session
//! ends, and how long the caller may wait on the way.

use crate::events::UserEvent;
use vstd::prelude::*;

verus! {

/// The longest wait for the error stream's relay to finish, and for the
/// transport to close after the process has exited, in milliseconds.
pub const DRAIN_TIMEOUT_MS: u64 = 500;

/// Something the caller has to carry out, in the order given.
#[derive(Debug, Clone, PartialEq, Eq)]
pub enum SessionEffect {
    /// Abort the read loop: the transport is torn down by force.
    AbortReadLoop,
    /// Clear the reference to the current connection.
    ClearCurrentConnection,
    /// Send this event.
    Emit(UserEvent),
}

/// The effects that end a session: the reference to it is cleared, then
/// its exit is announced.
pub open spec fn closing_effects() -> Seq<SessionEffect> {
    seq![SessionEffect::ClearCurrentConnection, SessionEffect::Emit(UserEvent::NeovimExited)]
}

/// How often `effects` announces the exit of the session.
pub open spec fn exits_announced(effects: Seq<SessionEffect>) -> nat
    decreases effects.len(),
{
    if effects.len() == 0 {
        0
    } else {
        let counted: nat = if effects.last() == SessionEffect::Emit(UserEvent::NeovimExited) {
            1
        } else {
            0
        };
        counted + exits_announced(effects.drop_last())
    }
}

/// The announcements of two lists add up.
pub proof fn lemma_exits_announced_concat(front: Seq<SessionEffect>, back: Seq<SessionEffect>)
    ensures
        exits_announced(front + back) == exits_announced(front) + exits_announced(back),
    decreases back.len(),
{
    if back.len() == 0 {
        assert(front + back =~= front);
    } else {
        assert((front + back).last() == back.last());
        assert((front + back).drop_last() =~= front + back.drop_last());
        lemma_exits_announced_concat(front, back.drop_last());
    }
}

/// The effects that end a session announce its exit once.
pub proof fn lemma_closing_effects_announce_once()
    ensures
        exits_announced(closing_effects()) == 1,
        exits_announced(seq![SessionEffect::AbortReadLoop] + closing_effects()) == 1,
        exits_announced(seq![SessionEffect::AbortReadLoop]) == 0,
        exits_announced(Seq::empty()) == 0,
{
    let closing = closing_effects();
    assert(closing.drop_last() =~= seq![SessionEffect::ClearCurrentConnection]);
    assert(closing.drop_last().drop_last() =~= Seq::<SessionEffect>::empty());
    assert(exits_announced(closing.drop_last()) == 0) by {
        reveal_with_fuel(exits_announced, 2);
    }
    assert(exits_announced(closing) == 1);
    let abort = seq![SessionEffect::AbortReadLoop];
    assert(abort.drop_last() =~= Seq::<SessionEffect>::empty());
    assert(exits_announced(abort) == 0) by {
        reveal_with_fuel(exits_announced, 2);
    }
    lemma_exits_announced_concat(abort, closing);
}

/// The effects that end a session, for the caller to carry out.
pub fn close_session() -> (effects: Vec<SessionEffect>)
    ensures
        effects@ == closing_effects(),
{
    let mut effects: Vec<SessionEffect> = Vec::new();
    effects.push(SessionEffect::ClearCurrentConnection);
    effects.push(SessionEffect::Emit(UserEvent::NeovimExited));
    assert(effects@ =~= closing_effects());
    effects
}

} // verus!

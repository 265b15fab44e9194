//! Delay between reconnect attempts: doubling from a base, under a cap.

use vstd::prelude::*;

verus! {

/// Delay before the first retry, in seconds.
pub const BASE_BACKOFF_SECS: u64 = 1;

/// No delay between two attempts is longer than this, in seconds.
pub const MAX_BACKOFF_SECS: u64 = 30;

/// The delay that follows `wait`: twice as long, but never above the cap.
pub open spec fn doubled(wait: int) -> int {
    if 2 * wait <= 30 {
        2 * wait
    } else {
        30
    }
}

/// The delay announced after `failures` earlier consecutive failures:
/// 1, 2, 4, 8, 16, 30, 30, ...
pub open spec fn backoff_after(failures: nat) -> int
    decreases failures,
{
    if failures == 0 {
        1
    } else {
        doubled(backoff_after((failures - 1) as nat))
    }
}

/// Two to the power `n`.
pub open spec fn pow2(n: nat) -> int
    decreases n,
{
    if n == 0 {
        1
    } else {
        2 * pow2((n - 1) as nat)
    }
}

/// The delay to use after a retry that waited `wait` seconds.
pub fn next_backoff(wait: u64) -> (next: u64)
    ensures
        next == doubled(wait as int),
        next <= MAX_BACKOFF_SECS,
{
    if wait < 15 {
        wait * 2
    } else {
        MAX_BACKOFF_SECS
    }
}

/// Every delay of the sequence lies between the base and the cap.
pub proof fn lemma_backoff_bounded(failures: nat)
    ensures
        1 <= backoff_after(failures) <= 30,
    decreases failures,
{
    if failures > 0 {
        lemma_backoff_bounded((failures - 1) as nat);
    }
}

/// The sequence never decreases from one failure to the next.
pub proof fn lemma_backoff_step_monotonic(failures: nat)
    ensures
        backoff_after(failures) <= backoff_after(failures + 1),
{
    lemma_backoff_bounded(failures);
}

/// The sequence never decreases: a later failure waits at least as long as
/// an earlier one.
pub proof fn lemma_backoff_monotonic(earlier: nat, later: nat)
    requires
        earlier <= later,
    ensures
        backoff_after(earlier) <= backoff_after(later),
    decreases later - earlier,
{
    if earlier < later {
        lemma_backoff_monotonic(earlier, (later - 1) as nat);
        lemma_backoff_step_monotonic((later - 1) as nat);
    }
}

/// The sequence is the powers of two while they stay under the cap, and the
/// cap from then on.
pub proof fn lemma_backoff_closed_form(failures: nat)
    ensures
        failures < 5 ==> backoff_after(failures) == pow2(failures),
        failures >= 5 ==> backoff_after(failures) == 30,
    decreases failures,
{
    if failures > 0 {
        lemma_backoff_closed_form((failures - 1) as nat);
    }
    reveal_with_fuel(pow2, 6);
    reveal_with_fuel(backoff_after, 6);
}

/// The first delays are 1, 2, 4, 8, 16, then 30 for good.
pub proof fn lemma_backoff_sequence()
    ensures
        backoff_after(0) == 1,
        backoff_after(1) == 2,
        backoff_after(2) == 4,
        backoff_after(3) == 8,
        backoff_after(4) == 16,
        backoff_after(5) == 30,
        backoff_after(6) == 30,
        backoff_after(7) == 30,
        forall|n: nat| n >= 5 ==> #[trigger] backoff_after(n) == 30,
{
    reveal_with_fuel(backoff_after, 8);
    assert forall|n: nat| n >= 5 implies #[trigger] backoff_after(n) == 30 by {
        lemma_backoff_closed_form(n);
    }
}

} // verus!

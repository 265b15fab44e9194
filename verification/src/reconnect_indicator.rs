//! The state behind the countdown that is shown while the client waits to
//! reconnect. Times are in milliseconds on a clock of the caller's choice.

use vstd::prelude::*;

verus! {

/// Whether a reconnect is announced, to which server, and until when.
pub struct ReconnectIndicator {
    active: bool,
    address: String,
    end_time: u64,
}

/// `total` plus `more`, or the largest number where that does not fit.
pub open spec fn capped_sum(total: u64, more: u64) -> u64 {
    if total + more <= u64::MAX {
        (total + more) as u64
    } else {
        u64::MAX
    }
}

/// The milliseconds from `now` to `end_time`, none where it has passed.
pub open spec fn millis_until(end_time: u64, now: u64) -> u64 {
    if end_time >= now {
        (end_time - now) as u64
    } else {
        0
    }
}

/// `millis` in whole seconds, a begun second counted as one.
pub open spec fn seconds_rounded_up(millis: u64) -> u64 {
    if millis % 1000 == 0 {
        millis / 1000
    } else {
        (millis / 1000 + 1) as u64
    }
}

impl ReconnectIndicator {
    /// A countdown is shown.
    pub closed spec fn active(self) -> bool {
        self.active
    }

    /// The server that is named in the countdown.
    pub closed spec fn shown_address(self) -> Seq<char> {
        self.address@
    }

    /// The time at which the next attempt is made.
    pub closed spec fn end_time(self) -> u64 {
        self.end_time
    }

    /// An indicator that shows nothing.
    pub fn new() -> (indicator: Self)
        ensures
            !indicator.active(),
            indicator.shown_address() == Seq::<char>::empty(),
            indicator.end_time() == 0,
    {
        ReconnectIndicator { active: false, address: String::new(), end_time: 0 }
    }

    /// Shows the countdown for `address`, which ends `wait` after `now`.
    pub fn start(&mut self, address: String, now: u64, wait: u64)
        ensures
            final(self).active(),
            final(self).shown_address() == address@,
            final(self).end_time() == capped_sum(now, wait),
    {
        self.address = address;
        self.end_time = if wait <= u64::MAX - now {
            now + wait
        } else {
            u64::MAX
        };
        self.active = true;
    }

    /// Shows nothing any more. The address and the end stay as they are.
    pub fn stop(&mut self)
        ensures
            !final(self).active(),
            final(self).shown_address() == old(self).shown_address(),
            final(self).end_time() == old(self).end_time(),
    {
        self.active = false;
    }

    /// Whether a countdown is shown.
    pub fn is_active(&self) -> (active: bool)
        ensures
            active == self.active(),
    {
        self.active
    }

    /// The server that is named in the countdown.
    pub fn address(&self) -> (address: &String)
        ensures
            address@ == self.shown_address(),
    {
        &self.address
    }

    /// The milliseconds that are left at `now`, none once the end has passed.
    pub fn remaining_millis(&self, now: u64) -> (millis: u64)
        ensures
            millis == millis_until(self.end_time(), now),
    {
        if self.end_time >= now {
            self.end_time - now
        } else {
            0
        }
    }

    /// The seconds to show at `now`: what is left, a begun second counted
    /// as one.
    pub fn remaining_seconds(&self, now: u64) -> (seconds: u64)
        ensures
            seconds == seconds_rounded_up(millis_until(self.end_time(), now)),
            seconds * 1000 >= millis_until(self.end_time(), now),
            seconds * 1000 < millis_until(self.end_time(), now) + 1000,
    {
        let millis = self.remaining_millis(now);
        if millis % 1000 == 0 {
            millis / 1000
        } else {
            millis / 1000 + 1
        }
    }
}

} // verus!

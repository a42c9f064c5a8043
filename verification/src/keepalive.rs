//! The keepalive schedule: a ping when a session starts, and then no sooner
//! than one period after the ping before.
//!
//! Time is a count of seconds from an origin that the caller picks and keeps,
//! such as the start of the session. The schedule holds no clock: the caller
//! sleeps until `next_due` and reports the time it woke at.

use vstd::prelude::*;

verus! {

/// The time between two pings of a session, in seconds.
pub const KEEPALIVE_PERIOD: u64 = 30;

/// The schedule of one session's pings.
#[derive(Clone, Copy, Debug, PartialEq, Eq, Structural)]
pub struct Keepalive {
    /// When the session last pinged, if it ever did.
    pub last_ping: Option<u64>,
}

impl Keepalive {
    /// Whether a ping is due at `now`: always before the first ping, and
    /// afterwards once a full period has passed since the last one.
    pub open spec fn spec_due(self, now: u64) -> bool {
        match self.last_ping {
            None => true,
            Some(last) => now - last >= KEEPALIVE_PERIOD,
        }
    }

    /// The earliest time at which a ping is due; `None` where that time is
    /// beyond what the clock can count to.
    pub open spec fn spec_next_due(self) -> Option<u64> {
        match self.last_ping {
            None => Some(0),
            Some(last) => if last + KEEPALIVE_PERIOD <= u64::MAX {
                Some((last + KEEPALIVE_PERIOD) as u64)
            } else {
                None
            },
        }
    }

    /// The schedule after a tick at `now`: a due ping is recorded, an early
    /// tick changes nothing.
    pub open spec fn after_tick(self, now: u64) -> Keepalive {
        if self.spec_due(now) {
            Keepalive { last_ping: Some(now) }
        } else {
            self
        }
    }

    /// The schedule of a session that has not pinged yet.
    pub fn new() -> (k: Keepalive)
        ensures
            k.last_ping is None,
    {
        Keepalive { last_ping: None }
    }

    /// Whether a ping is due at `now`.
    #[verifier::when_used_as_spec(spec_due)]
    pub fn due(self, now: u64) -> (d: bool)
        ensures
            d == self.spec_due(now),
    {
        match self.last_ping {
            None => true,
            Some(last) => now >= last && now - last >= KEEPALIVE_PERIOD,
        }
    }

    /// The earliest time at which a ping is due.
    #[verifier::when_used_as_spec(spec_next_due)]
    pub fn next_due(self) -> (t: Option<u64>)
        ensures
            t == self.spec_next_due(),
    {
        match self.last_ping {
            None => Some(0),
            Some(last) => last.checked_add(KEEPALIVE_PERIOD),
        }
    }

    /// Takes a tick of the timer at `now` and says whether to ping.
    pub fn tick(&mut self, now: u64) -> (ping: bool)
        ensures
            ping == old(self).spec_due(now),
            *final(self) == old(self).after_tick(now),
    {
        if self.due(now) {
            self.last_ping = Some(now);
            true
        } else {
            false
        }
    }

    /// A ping is due exactly from `next_due` on, and never where there is no
    /// such time.
    pub proof fn lemma_due_from_next_due(self, now: u64)
        ensures
            self.spec_due(now) <==> (self.spec_next_due() matches Some(t) && now >= t),
    {
    }

    /// Two pings in a row are at least one period apart.
    pub proof fn lemma_period_between_pings(self, first: u64, second: u64)
        requires
            self.spec_due(first),
            self.after_tick(first).spec_due(second),
        ensures
            second - first >= KEEPALIVE_PERIOD,
    {
    }
}

} // verus!

//! Requests to be resumed after a delay, on a clock that counts whole
//! seconds.

use vstd::prelude::*;

verus! {

/// A request to be resumed once a number of seconds has passed.
#[derive(Clone, Copy, Debug, PartialEq, Eq, Structural)]
pub struct TimerRequest {
    /// Seconds to wait from the instant the request is made.
    pub secs: u64,
}

impl TimerRequest {
    /// A request to be resumed `secs` seconds from now.
    pub fn after_secs(secs: u64) -> (request: TimerRequest)
        ensures
            request.secs == secs,
    {
        TimerRequest { secs }
    }

    /// The instant at which a request made at `armed_at` fires.
    pub open spec fn fires_at(&self, armed_at: int) -> int {
        armed_at + self.secs
    }

    /// The request, made at `armed_at`, has fired by `now`.
    pub open spec fn spec_is_due(&self, armed_at: u64, now: u64) -> bool {
        now >= self.fires_at(armed_at as int)
    }

    /// The instant at which a request made at `armed_at` fires; `None`
    /// where that instant lies beyond what the clock can count.
    pub fn deadline(&self, armed_at: u64) -> (at: Option<u64>)
        ensures
            at == if self.fires_at(armed_at as int) <= u64::MAX {
                Some(self.fires_at(armed_at as int) as u64)
            } else {
                None
            },
    {
        armed_at.checked_add(self.secs)
    }

    /// The delay counted in ticks of a clock that ticks `tick_hz` times a
    /// second; `None` where the count is more than 64 bits hold.
    pub fn ticks(&self, tick_hz: u64) -> (ticks: Option<u64>)
        ensures
            ticks == if self.secs * tick_hz <= u64::MAX {
                Some((self.secs * tick_hz) as u64)
            } else {
                None
            },
    {
        self.secs.checked_mul(tick_hz)
    }

    /// Tells whether the request, made at `armed_at`, has fired by `now`:
    /// whether the whole delay has passed.
    #[verifier::when_used_as_spec(spec_is_due)]
    pub fn is_due(&self, armed_at: u64, now: u64) -> (due: bool)
        ensures
            due == self.spec_is_due(armed_at, now),
    {
        match armed_at.checked_add(self.secs) {
            Some(at) => now >= at,
            None => false,
        }
    }
}

/// A request never fires early, and once it has fired it stays fired.
pub proof fn lemma_fires_once_due(request: TimerRequest, armed_at: u64, now: u64, later: u64)
    requires
        now <= later,
    ensures
        request.is_due(armed_at, now) ==> now - armed_at >= request.secs,
        now < armed_at + request.secs ==> !request.is_due(armed_at, now),
        request.is_due(armed_at, now) ==> request.is_due(armed_at, later),
{
}

} // verus!

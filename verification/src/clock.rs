//! A monotonic elapsed-duration accumulator with explicit running/stopped
//! semantics. All durations are whole milliseconds; callers supply the
//! clock readings (`now`), so every operation here is a pure function of
//! its arguments.

use vstd::prelude::*;

verus! {

/// An elapsed-duration accumulator. While stopped, `elapsed` reads the
/// committed total; while running, it adds the live interval since
/// `running_since` on top of that total. Arithmetic saturates at
/// `u64::MAX` milliseconds, so no reading can make an operation fail.
pub struct Clock {
    /// Milliseconds committed by earlier `stop` calls.
    pub total_ms: u64,
    /// The reading at which the clock was last started, if it is running.
    pub running_since: Option<u64>,
}

impl Clock {
    /// A stopped clock with nothing committed.
    pub open spec fn spec_zero() -> Clock {
        Clock { total_ms: 0, running_since: None }
    }

    pub open spec fn is_running(self) -> bool {
        self.running_since is Some
    }

    /// The value the clock shows at reading `now`.
    pub open spec fn spec_elapsed(self, now: u64) -> u64 {
        match self.running_since {
            Some(since) => self.total_ms.saturating_add(now.saturating_sub(since)),
            None => self.total_ms,
        }
    }

    /// The clock after `start` at reading `now`: a no-op if already running.
    pub open spec fn spec_started(self, now: u64) -> Clock {
        match self.running_since {
            Some(_) => self,
            None => Clock { total_ms: self.total_ms, running_since: Some(now) },
        }
    }

    /// The clock after `stop` at reading `now`: the live interval is
    /// committed into the total and the clock stops; a no-op if already
    /// stopped.
    pub open spec fn spec_stopped(self, now: u64) -> Clock {
        Clock { total_ms: self.spec_elapsed(now), running_since: None }
    }

    pub fn new() -> (c: Clock)
        ensures
            c == Self::spec_zero(),
    {
        Clock { total_ms: 0, running_since: None }
    }

    pub fn start(&mut self, now: u64)
        ensures
            *final(self) == old(self).spec_started(now),
    {
        if self.running_since.is_none() {
            self.running_since = Some(now);
        }
    }

    pub fn stop(&mut self, now: u64)
        ensures
            *final(self) == old(self).spec_stopped(now),
    {
        let committed = self.elapsed(now);
        self.total_ms = committed;
        self.running_since = None;
    }

    /// Querying never mutates the clock: the result is a function of the
    /// clock's value and `now` alone, so a display layer may call this at
    /// any frequency without affecting the accounting.
    pub fn elapsed(&self, now: u64) -> (r: u64)
        ensures
            r == self.spec_elapsed(now),
    {
        match self.running_since {
            Some(since) => self.total_ms.saturating_add(now.saturating_sub(since)),
            None => self.total_ms,
        }
    }
}

/// Later readings never show a smaller value: `elapsed` is monotonically
/// non-decreasing in `now` on an untouched clock, in particular between
/// two `stop` calls.
pub proof fn lemma_elapsed_monotonic(c: Clock, now1: u64, now2: u64)
    requires
        now1 <= now2,
    ensures
        c.spec_elapsed(now1) <= c.spec_elapsed(now2),
{
}

/// Stopping commits exactly what the clock showed: after `stop` at reading
/// `now`, every later query reads what `elapsed` read at `now`.
pub proof fn lemma_stop_freezes_elapsed(c: Clock, now: u64, later: u64)
    ensures
        c.spec_stopped(now).spec_elapsed(later) == c.spec_elapsed(now),
{
}

/// Starting a clock does not change what it shows at the start reading
/// itself.
pub proof fn lemma_start_preserves_elapsed(c: Clock, now: u64)
    ensures
        c.spec_started(now).spec_elapsed(now) == c.spec_elapsed(now),
{
}

/// Monotonicity holds across a `start` as well: a reading taken before
/// the start never exceeds one taken after it.
pub proof fn lemma_start_monotonic(c: Clock, now1: u64, now: u64, now2: u64)
    requires
        now1 <= now <= now2,
    ensures
        c.spec_elapsed(now1) <= c.spec_started(now).spec_elapsed(now2),
{
}

} // verus!

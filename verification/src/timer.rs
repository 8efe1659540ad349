//! Pacing timers for automatic descent and lock-delay.
//!
//! A timer does not own a clock: the controller owns the simulation time (in
//! milliseconds) and passes the current time to `elapsed` and `reset`.

use vstd::prelude::*;

verus! {

pub enum TimerTickResult {
    Idle,
    Reset,
}

/// A timed event on the controller's clock. The timer fires (reports
/// `elapsed`) once the clock reaches its fire time, unless it is stopped.
pub struct Timer {
    pub interval: u64,
    pub time: u64,
    pub started: bool,
}

impl Timer {
    /// The configured interval, in milliseconds.
    pub open spec fn spec_interval(self) -> u64 {
        self.interval
    }

    /// The clock value at which the timer next fires.
    pub open spec fn fire_time(self) -> u64 {
        self.time
    }

    /// Whether the timer is running (a stopped timer never fires).
    pub open spec fn is_started(self) -> bool {
        self.started
    }

    /// What `elapsed` returns at clock value `now`.
    pub open spec fn spec_elapsed(self, now: u64) -> bool {
        self.is_started() && now >= self.fire_time()
    }

    /// The timer after a `reset` at clock value `now`, with `new_interval`
    /// optionally replacing the interval. The next fire time is one interval
    /// from `now` (saturating at the clock type's maximum).
    pub open spec fn spec_reset(self, now: u64, new_interval: Option<u64>) -> Timer {
        let interval = match new_interval {
            Option::Some(i) => i,
            Option::None => self.spec_interval(),
        };
        Timer {
            interval,
            time: if now + interval <= u64::MAX { (now + interval) as u64 } else { u64::MAX },
            started: true,
        }
    }

    /// A started timer on interval `interval` whose reference time is 0.
    pub open spec fn spec_fresh(interval: u64) -> Timer {
        Timer { interval, time: interval, started: true }
    }

    /// A started timer whose reference time is 0: it first fires once the
    /// clock reaches `interval`.
    pub fn new(interval: u64) -> (t: Timer)
        ensures
            t == Timer::spec_fresh(interval),
            t.spec_interval() == interval,
            t.fire_time() == interval,
            t.is_started(),
    {
        Timer { interval, time: interval, started: true }
    }

    /// Whether the timer has fired at clock value `now`: false if stopped,
    /// else true iff `now` has reached the fire time.
    pub fn elapsed(&self, now: u64) -> (r: bool)
        ensures
            r == self.spec_elapsed(now),
    {
        if !self.started {
            return false;
        }
        now >= self.time
    }

    /// Restarts the timer relative to `now`: optionally replaces the
    /// interval, marks the timer started, and schedules the next firing one
    /// interval from `now`.
    pub fn reset(&mut self, now: u64, new_interval: Option<u64>)
        ensures
            *final(self) == old(self).spec_reset(now, new_interval),
    {
        if let Option::Some(val) = new_interval {
            self.interval = val;
        }
        self.started = true;
        self.time = now.saturating_add(self.interval);
    }

    /// Suspends firing without resetting the fire time.
    pub fn stop(&mut self)
        ensures
            !final(self).is_started(),
            final(self).spec_interval() == old(self).spec_interval(),
            final(self).fire_time() == old(self).fire_time(),
    {
        self.started = false;
    }
}

/// Law: a `reset` at clock value `now` with a positive interval leaves the
/// timer not yet elapsed at `now`, and elapsed once the clock has advanced
/// by exactly the interval.
pub proof fn lemma_reset_then_elapsed(t: Timer, now: u64, interval: u64)
    requires
        interval > 0,
        now + interval <= u64::MAX,
    ensures
        !t.spec_reset(now, Some(interval)).spec_elapsed(now),
        t.spec_reset(now, Some(interval)).spec_elapsed((now + interval) as u64),
{
}

} // verus!

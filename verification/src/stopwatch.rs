//! A stopwatch that counts the time between events.
//!
//! An interpolated stopwatch records the times of the last `n` events in a
//! ring and reports the average time between them. Times are read from the
//! system clock in microseconds; since the clock can be adjusted between
//! readings, differences are taken saturating, never below zero.

use vstd::prelude::*;
use std::time::SystemTime;

verus! {

#[verifier::external_type_specification]
#[verifier::external_body]
pub struct ExSystemTime(SystemTime);

/// Relies on std::time::SystemTime::now: a reading of the system clock.
/// What it returns depends on the wall clock, so nothing is assumed of it.
#[verifier::external_body]
fn system_now() -> SystemTime {
    SystemTime::now()
}

/// Relies on std::time::SystemTime::duration_since: the microseconds from
/// the epoch to `t`, and nothing for a `t` before the epoch.
#[verifier::external_body]
fn micros_since_epoch(t: &SystemTime) -> Option<u64> {
    t.duration_since(std::time::UNIX_EPOCH).ok().map(|d| d.as_micros() as u64)
}

/// The current system time in microseconds since the epoch, and zero for a
/// clock set before the epoch. Successive readings can give any values: the
/// clock may be adjusted between them.
fn now_micros() -> u64 {
    let now = system_now();
    match micros_since_epoch(&now) {
        Some(m) => m,
        None => 0,
    }
}

/// How much later `now` is than `earlier`, and zero when the clock went
/// backwards between the two readings.
pub open spec fn elapsed_micros(earlier: u64, now: u64) -> u64 {
    if now >= earlier {
        (now - earlier) as u64
    } else {
        0
    }
}

/// A stopwatch that counts the time between events. An interpolated
/// stopwatch stores the times of the last `n` events, where `n` is the
/// interpolation amount given to the constructor, and reports the average
/// time between successive events.
pub struct InterpolatedStopwatch {
    times: Vec<u64>,
    offset: usize,
}

impl InterpolatedStopwatch {
    /// The recorded event times, in microseconds, as a ring.
    pub closed spec fn times(&self) -> Seq<u64> {
        self.times@
    }

    /// The ring slot the next event time will be written to.
    pub closed spec fn offset(&self) -> int {
        self.offset as int
    }

    /// The ring slot written most recently.
    pub open spec fn prev_offset(&self) -> int {
        if self.offset() == 0 {
            self.times().len() - 1
        } else {
            self.offset() - 1
        }
    }

    #[verifier::type_invariant]
    spec fn wf(&self) -> bool {
        self.times@.len() >= 1 && (self.offset as int) < self.times@.len()
    }

    /// A stopwatch interpolating over the given number of events, which must
    /// be at least one. Every slot starts at the current time, so the first
    /// deltas are measured against the moment of construction.
    pub fn new(interpolation_amount: usize) -> (stopwatch: InterpolatedStopwatch)
        requires
            interpolation_amount >= 1,
        ensures
            stopwatch.times().len() == interpolation_amount,
            stopwatch.offset() == 0,
    {
        let now = now_micros();
        InterpolatedStopwatch { times: vec![now; interpolation_amount], offset: 0 }
    }

    /// Call this function every time the given event happens. The average
    /// time between calls is available through
    /// [`InterpolatedStopwatch::average_time`].
    ///
    /// Returns the time between the previous tick and this tick, in
    /// microseconds. The clock is read once; everything else about the new
    /// state is determined by the old one: the reading lands in the current
    /// slot, the offset advances one slot around the ring, and the result is
    /// how much the reading exceeds the previously recorded time.
    pub fn tick(&mut self) -> (delta: u64)
        ensures
            final(self).times().len() == old(self).times().len(),
            final(self).offset() == (old(self).offset() + 1) % (old(self).times().len() as int),
            exists|now: u64|
                final(self).times() == old(self).times().update(old(self).offset(), now) && delta
                    == elapsed_micros(old(self).times()[old(self).prev_offset()], now),
    {
        proof {
            use_type_invariant(&*self);
        }
        let prev_offset = if self.offset == 0 {
            self.times.len() - 1
        } else {
            self.offset - 1
        };
        let now = now_micros();
        let old_time = self.times[prev_offset];
        self.times[self.offset] = now;
        let delta = if now >= old_time {
            now - old_time
        } else {
            0
        };
        let len = self.times.len();
        proof {
            assert(self.offset < len);
        }
        self.offset = (self.offset + 1) % len;
        proof {
            assert(final(self).times() == old(self).times().update(old(self).offset(), now)
                && delta == elapsed_micros(old(self).times()[old(self).prev_offset()], now));
        }
        delta
    }

    /// The average time between the recorded events, in microseconds: the
    /// span from the oldest recorded time to the newest, divided by the
    /// number of slots.
    pub fn average_time(&self) -> (avg: u64)
        ensures
            avg == elapsed_micros(
                self.times()[self.offset()],
                self.times()[self.prev_offset()],
            ) / (self.times().len() as u64),
    {
        proof {
            use_type_invariant(&*self);
        }
        let prev_offset = if self.offset == 0 {
            self.times.len() - 1
        } else {
            self.offset - 1
        };
        let newest = self.times[prev_offset];
        let oldest = self.times[self.offset];
        let span = if newest >= oldest {
            newest - oldest
        } else {
            0
        };
        span / (self.times.len() as u64)
    }
}

} // verus!

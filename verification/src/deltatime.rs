//! Per-tick wall-clock bookkeeping.

use vstd::prelude::*;
use std::time::{Duration, Instant};

verus! {

#[verifier::external_type_specification]
#[verifier::external_body]
pub struct ExInstant(Instant);

/// Relies on `Clone for std::time::Instant`: `Instant` is `Copy`, so its
/// clone is the value itself.
pub assume_specification[ <Instant as Clone>::clone ](v: &Instant) -> (r: Instant)
    ensures
        r == *v,
;

/// Relies on `Clone for std::time::Duration`: `Duration` is `Copy`, so
/// its clone is the value itself.
pub assume_specification[ <Duration as Clone>::clone ](v: &Duration) -> (r: Duration)
    ensures
        r == *v,
;

/// Relies on `std::time::Instant::now`: an opaque reading of the
/// monotonic clock. Nothing is assumed of the value returned.
#[verifier::external_body]
fn instant_now() -> Instant {
    Instant::now()
}

/// Relies on `std::time::Instant::elapsed`: the time passed since
/// `since`, which depends on the clock at the moment of the call.
/// Nothing is assumed of the value returned.
#[verifier::external_body]
fn instant_elapsed(since: &Instant) -> Duration {
    since.elapsed()
}

/// The duration of `secs` whole seconds plus `nanos` nanoseconds.
pub uninterp spec fn duration_from(secs: u64, nanos: u32) -> Duration;

/// Relies on `std::time::Duration::new`: the duration of `secs` seconds
/// plus `nanos` nanoseconds, a function of its two arguments alone. Kept
/// below one second of nanoseconds, so no carry can overflow the seconds.
#[verifier::external_body]
fn duration_new(secs: u64, nanos: u32) -> (d: Duration)
    requires
        nanos < 1_000_000_000,
    ensures
        d == duration_from(secs, nanos),
{
    Duration::new(secs, nanos)
}

/// The time one tick took: updated once per tick from the monotonic
/// clock, read by whoever scales movement or animation by frame time.
#[derive(Clone)]
pub struct Deltatime {
    value: Duration,
    last_update: Instant,
}

impl Deltatime {
    /// The stored duration, for specifications.
    pub closed spec fn spec_value(&self) -> Duration {
        self.value
    }

    /// A new timer holding a zero duration.
    pub fn new() -> (r: Deltatime)
        ensures
            r.spec_value() == duration_from(0, 0),
    {
        Deltatime { value: duration_new(0, 0), last_update: instant_now() }
    }

    /// The duration measured by the latest [`Deltatime::update`].
    pub fn get(&self) -> (r: Duration)
        ensures
            r == self.spec_value(),
    {
        self.value
    }

    /// Set the stored duration back to zero and restart the measurement.
    pub fn reset(&mut self)
        ensures
            final(self).spec_value() == duration_from(0, 0),
    {
        self.value = duration_new(0, 0);
        self.last_update = instant_now();
    }

    /// Store the time passed since the previous update and restart the
    /// measurement. Call once per tick. The stored value comes from the
    /// clock, so nothing is promised of it.
    pub fn update(&mut self) {
        self.value = instant_elapsed(&self.last_update);
        self.last_update = instant_now();
    }
}

} // verus!

//! Time as the control system sees it: whole nanoseconds.
//!
//! The library never reads a clock. Whoever drives it converts the readings of
//! a monotonic clock to [`Instant`]s that share one origin.

use vstd::prelude::*;

verus! {

/// Nanoseconds in a microsecond.
pub const NANOS_PER_MICRO: u64 = 1_000;

/// Nanoseconds in a millisecond.
pub const NANOS_PER_MILLI: u64 = 1_000_000;

/// Nanoseconds in a second.
pub const NANOS_PER_SEC: u64 = 1_000_000_000;

/// A span of time.
#[derive(Debug, Clone, Copy, PartialEq, Eq, Structural, PartialOrd, Ord, Hash)]
pub struct Duration {
    pub nanos: u64,
}

impl Duration {
    /// A span of `nanos` nanoseconds.
    pub fn from_nanos(nanos: u64) -> (d: Duration)
        ensures
            d.nanos == nanos,
    {
        Duration { nanos }
    }

    /// A span of `micros` microseconds.
    pub fn from_micros(micros: u64) -> (d: Duration)
        requires
            micros * NANOS_PER_MICRO <= u64::MAX,
        ensures
            d.nanos == micros * NANOS_PER_MICRO,
    {
        Duration { nanos: micros * NANOS_PER_MICRO }
    }

    /// A span of `millis` milliseconds.
    pub fn from_millis(millis: u64) -> (d: Duration)
        requires
            millis * NANOS_PER_MILLI <= u64::MAX,
        ensures
            d.nanos == millis * NANOS_PER_MILLI,
    {
        Duration { nanos: millis * NANOS_PER_MILLI }
    }

    /// A span of `secs` seconds.
    pub fn from_secs(secs: u64) -> (d: Duration)
        requires
            secs * NANOS_PER_SEC <= u64::MAX,
        ensures
            d.nanos == secs * NANOS_PER_SEC,
    {
        Duration { nanos: secs * NANOS_PER_SEC }
    }

    /// The span in whole microseconds, as a specification value.
    pub open spec fn micros(self) -> nat {
        (self.nanos / NANOS_PER_MICRO) as nat
    }

    /// The span in whole milliseconds, as a specification value.
    pub open spec fn millis(self) -> nat {
        (self.nanos / NANOS_PER_MILLI) as nat
    }

    /// The span in nanoseconds.
    pub fn as_nanos(&self) -> (n: u64)
        ensures
            n == self.nanos,
    {
        self.nanos
    }

    /// The span in whole microseconds; a rest is cut off.
    pub fn as_micros(&self) -> (n: u64)
        ensures
            n == self.micros(),
    {
        self.nanos / NANOS_PER_MICRO
    }

    /// The span in whole milliseconds; a rest is cut off.
    pub fn as_millis(&self) -> (n: u64)
        ensures
            n == self.millis(),
    {
        self.nanos / NANOS_PER_MILLI
    }

    /// The span in whole seconds; a rest is cut off.
    pub fn as_secs(&self) -> (n: u64)
        ensures
            n == self.nanos / NANOS_PER_SEC,
    {
        self.nanos / NANOS_PER_SEC
    }
}

/// A reading of the monotonic clock, counted from an origin that all readings
/// share.
#[derive(Debug, Clone, Copy, PartialEq, Eq, Structural, PartialOrd, Ord, Hash)]
pub struct Instant {
    pub nanos: u64,
}

impl Instant {
    /// The instant `nanos` nanoseconds after the origin.
    pub fn at_nanos(nanos: u64) -> (t: Instant)
        ensures
            t.nanos == nanos,
    {
        Instant { nanos }
    }

    /// How long `earlier` lies before `self`; zero where it lies after it.
    pub open spec fn since(self, earlier: Instant) -> Duration {
        Duration {
            nanos: if earlier.nanos <= self.nanos {
                (self.nanos - earlier.nanos) as u64
            } else {
                0
            },
        }
    }

    /// The instant `d` later, where the clock reaches that far.
    pub open spec fn after(self, d: Duration) -> Instant {
        Instant { nanos: (self.nanos + d.nanos) as u64 }
    }

    /// Whether the clock can show the instant `d` later.
    pub open spec fn reaches(self, d: Duration) -> bool {
        self.nanos + d.nanos <= u64::MAX
    }

    /// How long `earlier` lies before `self`; zero where it lies after it.
    pub fn duration_since(&self, earlier: Instant) -> (d: Duration)
        ensures
            d == self.since(earlier),
    {
        Duration { nanos: self.nanos.saturating_sub(earlier.nanos) }
    }

    /// The instant `d` later.
    pub fn plus(&self, d: Duration) -> (t: Instant)
        requires
            self.reaches(d),
        ensures
            t == self.after(d),
    {
        Instant { nanos: self.nanos + d.nanos }
    }

    /// Whether [`Instant::plus`] can be asked for `d`.
    pub fn can_add(&self, d: Duration) -> (b: bool)
        ensures
            b == self.reaches(d),
    {
        d.nanos <= u64::MAX - self.nanos
    }
}

/// Time runs forward: the instant some span later lies just that span behind, and
/// the span to an instant that has not come yet is zero.
pub proof fn law_spans_lead_back(t: Instant, d: Duration, earlier: Instant)
    requires
        t.reaches(d),
    ensures
        t.after(d).nanos == t.nanos + d.nanos,
        t.after(d).since(t) == d,
        t.nanos <= earlier.nanos ==> t.since(earlier).nanos == 0,
        earlier.nanos <= t.nanos ==> earlier.nanos + t.since(earlier).nanos == t.nanos,
{
}

/// Whole microseconds and milliseconds are rounded down: what is cut off is less
/// than one of them.
pub proof fn law_units_round_down(d: Duration)
    ensures
        d.micros() * 1_000 <= d.nanos < (d.micros() + 1) * 1_000,
        d.millis() * 1_000_000 <= d.nanos < (d.millis() + 1) * 1_000_000,
{
}

/// Whether a run that ends at `end` goes on at `now`: it was not stopped, and its
/// end has not come.
pub open spec fn goes_on(end: Instant, now: Instant, stop: bool) -> bool {
    !stop && now.nanos < end.nanos
}

/// A run goes on up to its end, and not at it; once it is over it stays over, and
/// stopping it ends it at any time.
pub proof fn law_runs_end(end: Instant, now: Instant, later: Instant)
    requires
        now.nanos <= later.nanos,
    ensures
        goes_on(end, later, false) ==> goes_on(end, now, false),
        !goes_on(end, now, true),
        !goes_on(end, end, false),
        now.nanos < end.nanos ==> goes_on(end, now, false),
{
}

} // verus!

use std::ops::Sub;
use vstd::prelude::*;
use vstd::std_specs::ops::SubSpec;
use vstd::std_specs::ops::SubSpecImpl;

verus! {

/// `time::precise_time_ns` of the `time` crate: the current value of a
/// high-resolution performance counter, in nanoseconds since an unspecified
/// epoch. Nothing is said of the value: it depends on the clock.
#[verifier::external_body]
fn precise_time_ns() -> u64 {
    time::precise_time_ns()
}

/// High-resolution timestamp: nanoseconds since an unspecified epoch that
/// stays the same within the process.
#[derive(Clone, Copy, Debug, Default, PartialEq, Eq, Structural, Hash)]
pub struct Instant {
    ns_since_epoch: u64,
}

impl View for Instant {
    type V = u64;

    closed spec fn view(&self) -> u64 {
        self.ns_since_epoch
    }
}

impl Instant {
    /// The timestamp of now, as read from the high-resolution counter.
    pub fn now() -> (r: Self) {
        Instant { ns_since_epoch: precise_time_ns() }
    }

    /// The timestamp `ns` nanoseconds after the epoch.
    pub fn from_nanos_since_epoch(ns: u64) -> (r: Self)
        ensures
            r@ == ns,
    {
        Instant { ns_since_epoch: ns }
    }
}

/// A span of time, in nanoseconds.
#[derive(Clone, Copy, Debug, PartialEq, Eq, Structural, Hash)]
pub struct Interval {
    duration_ns: u64,
}

impl View for Interval {
    type V = u64;

    closed spec fn view(&self) -> u64 {
        self.duration_ns
    }
}

/// `a * b`, or `u64::MAX` where the product does not fit.
pub open spec fn saturating_product(a: u64, b: u64) -> u64 {
    if a * b > u64::MAX {
        u64::MAX
    } else {
        (a * b) as u64
    }
}

impl Interval {
    /// `secs` seconds, saturating at `u64::MAX` nanoseconds.
    pub fn from_seconds(secs: u64) -> (r: Self)
        ensures
            r@ == saturating_product(secs, 1_000_000_000),
    {
        let ns: u64 = match secs.checked_mul(1_000_000_000) {
            Some(x) => x,
            None => u64::MAX,
        };
        Interval { duration_ns: ns }
    }

    /// `millis` milliseconds, saturating at `u64::MAX` nanoseconds.
    pub fn from_millis(millis: u64) -> (r: Self)
        ensures
            r@ == saturating_product(millis, 1_000_000),
    {
        let ns: u64 = match millis.checked_mul(1_000_000) {
            Some(x) => x,
            None => u64::MAX,
        };
        Interval { duration_ns: ns }
    }

    /// `micros` microseconds, saturating at `u64::MAX` nanoseconds.
    pub fn from_micros(micros: u64) -> (r: Self)
        ensures
            r@ == saturating_product(micros, 1_000),
    {
        let ns: u64 = match micros.checked_mul(1_000) {
            Some(x) => x,
            None => u64::MAX,
        };
        Interval { duration_ns: ns }
    }

    /// `nanos` nanoseconds.
    pub fn from_nanos(nanos: u64) -> (r: Self)
        ensures
            r@ == nanos,
    {
        Interval { duration_ns: nanos }
    }

    /// The whole seconds of the interval.
    pub fn as_seconds(self) -> (r: u64)
        ensures
            r == self@ / 1_000_000_000,
    {
        self.duration_ns / 1_000_000_000
    }

    /// The whole milliseconds of the interval.
    pub fn as_millis(self) -> (r: u64)
        ensures
            r == self@ / 1_000_000,
    {
        self.duration_ns / 1_000_000
    }

    /// The whole microseconds of the interval.
    pub fn as_micros(self) -> (r: u64)
        ensures
            r == self@ / 1_000,
    {
        self.duration_ns / 1_000
    }

    /// The interval in nanoseconds.
    pub fn as_nanos(self) -> (r: u64)
        ensures
            r == self@,
    {
        self.duration_ns
    }
}

/// The time from `other` to `self`, zero when `other` is later.
impl Sub<Instant> for Instant {
    type Output = Interval;

    fn sub(self, other: Instant) -> (r: Interval) {
        Interval { duration_ns: self.ns_since_epoch.saturating_sub(other.ns_since_epoch) }
    }
}

impl SubSpecImpl<Instant> for Instant {
    open spec fn obeys_sub_spec() -> bool {
        true
    }

    open spec fn sub_req(self, rhs: Instant) -> bool {
        true
    }

    closed spec fn sub_spec(self, rhs: Instant) -> Interval {
        Interval {
            duration_ns: if self.ns_since_epoch >= rhs.ns_since_epoch {
                (self.ns_since_epoch - rhs.ns_since_epoch) as u64
            } else {
                0
            },
        }
    }
}

/// The interval between two instants is the difference of their counters,
/// or zero when the second is later; adding it back to the earlier instant
/// gives the later one.
pub proof fn lemma_instant_difference(a: Instant, b: Instant)
    ensures
        a@ >= b@ ==> <Instant as SubSpec<Instant>>::sub_spec(a, b)@ == a@ - b@,
        a@ < b@ ==> <Instant as SubSpec<Instant>>::sub_spec(a, b)@ == 0,
        a@ >= b@ ==> b@ + <Instant as SubSpec<Instant>>::sub_spec(a, b)@ == a@,
        <Instant as SubSpec<Instant>>::sub_spec(a, a)@ == 0,
{
}

/// Converting a whole number of seconds, milliseconds or microseconds to an
/// interval and back gives the number back, as long as the nanoseconds fit
/// in a `u64`; nanoseconds always come back unchanged.
pub proof fn lemma_interval_roundtrip(n: u64)
    ensures
        n * 1_000_000_000 <= u64::MAX ==> saturating_product(n, 1_000_000_000) / 1_000_000_000 == n,
        n * 1_000_000 <= u64::MAX ==> saturating_product(n, 1_000_000) / 1_000_000 == n,
        n * 1_000 <= u64::MAX ==> saturating_product(n, 1_000) / 1_000 == n,
{
}

} // verus!

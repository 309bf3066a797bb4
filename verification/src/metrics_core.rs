use crate::facade::instant::Instant;
use vstd::prelude::*;

verus! {

/// Methods common to all metrics of the core interface. A metric has none
/// beyond being one: the dynamic downcast the interface offers cannot be
/// written here.
pub trait MetricCommon {
}

/// A counter of the core interface: counts things (hits on a web endpoint,
/// runs of a function).
pub trait Counter {
    /// Sets the value of the counter.
    fn store(&self, time: Instant, value: u64);

    /// Adds to the counter.
    fn add(&self, time: Instant, amount: u64);

    /// The current value of the counter.
    fn load(&self) -> u64;
}

/// A gauge of the core interface: the instantaneous value of some property
/// (requests in flight, CPU or memory in use).
pub trait Gauge {
    /// Stores a value into the gauge.
    fn store(&self, time: Instant, value: i64);

    /// Adds to the gauge.
    fn add(&self, time: Instant, amount: i64);

    /// Subtracts from the gauge.
    fn sub(&self, time: Instant, amount: i64);

    /// The current value of the gauge.
    fn load(&self) -> u64;
}

} // verus!

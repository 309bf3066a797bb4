//! A metrics facade: metrics implement `Counter`, `Gauge` or `Histogram`
//! and are registered under a name, with static metadata, into a `State`;
//! values are then recorded by name.

pub mod instant;
pub mod metric;
pub mod percentile;
pub mod state;
pub mod value;

use crate::facade::instant::Instant;
use crate::facade::metric::{has_taken, Counter, DynCow, Gauge, Histogram, Metadata, MetricInstance, MetricType, MetricVal, Update};
use crate::facade::state::{MetricError, Recorded, RegisterError, State, UnregisterError};
use crate::facade::value::MetricValue;
use vstd::prelude::*;

verus! {

/// Registers a counter under `name`.
pub fn register_counter(
    state: &mut State,
    name: String,
    counter: DynCow<'static, dyn Counter>,
    metadata: Metadata,
) -> (r: Result<(), RegisterError>)
    ensures
        old(state).is_shutdown() ==> r == Err::<(), RegisterError>(RegisterError::LibraryShutdown),
        !old(state).is_shutdown() && old(state).registered().dom().contains(name@) ==> r == Err::<
            (),
            RegisterError,
        >(RegisterError::MetricAlreadyExists),
        !old(state).is_shutdown() && !old(state).registered().dom().contains(name@) ==> r is Ok,
        r is Ok ==> final(state).registered() == old(state).registered().insert(
            name@,
            MetricType::Counter,
        ),
        r is Ok ==> final(state).instances() == old(state).instances().insert(
            name@,
            MetricInstance::spec_made(MetricVal::Counter(counter), metadata),
        ),
        r is Err ==> final(state).registered() == old(state).registered(),
        r is Err ==> final(state).instances() == old(state).instances(),
        final(state).is_shutdown() == old(state).is_shutdown(),
{
    state.register_metric(name, MetricVal::Counter(counter), metadata)
}

/// Registers a gauge under `name`.
pub fn register_gauge(
    state: &mut State,
    name: String,
    gauge: DynCow<'static, dyn Gauge>,
    metadata: Metadata,
) -> (r: Result<(), RegisterError>)
    ensures
        old(state).is_shutdown() ==> r == Err::<(), RegisterError>(RegisterError::LibraryShutdown),
        !old(state).is_shutdown() && old(state).registered().dom().contains(name@) ==> r == Err::<
            (),
            RegisterError,
        >(RegisterError::MetricAlreadyExists),
        !old(state).is_shutdown() && !old(state).registered().dom().contains(name@) ==> r is Ok,
        r is Ok ==> final(state).registered() == old(state).registered().insert(
            name@,
            MetricType::Gauge,
        ),
        r is Ok ==> final(state).instances() == old(state).instances().insert(
            name@,
            MetricInstance::spec_made(MetricVal::Gauge(gauge), metadata),
        ),
        r is Err ==> final(state).registered() == old(state).registered(),
        r is Err ==> final(state).instances() == old(state).instances(),
        final(state).is_shutdown() == old(state).is_shutdown(),
{
    state.register_metric(name, MetricVal::Gauge(gauge), metadata)
}

/// Registers a histogram under `name`.
pub fn register_histogram(
    state: &mut State,
    name: String,
    histogram: DynCow<'static, dyn Histogram>,
    metadata: Metadata,
) -> (r: Result<(), RegisterError>)
    ensures
        old(state).is_shutdown() ==> r == Err::<(), RegisterError>(RegisterError::LibraryShutdown),
        !old(state).is_shutdown() && old(state).registered().dom().contains(name@) ==> r == Err::<
            (),
            RegisterError,
        >(RegisterError::MetricAlreadyExists),
        !old(state).is_shutdown() && !old(state).registered().dom().contains(name@) ==> r is Ok,
        r is Ok ==> final(state).registered() == old(state).registered().insert(
            name@,
            MetricType::Histogram,
        ),
        r is Ok ==> final(state).instances() == old(state).instances().insert(
            name@,
            MetricInstance::spec_made(MetricVal::Histogram(histogram), metadata),
        ),
        r is Err ==> final(state).registered() == old(state).registered(),
        r is Err ==> final(state).instances() == old(state).instances(),
        final(state).is_shutdown() == old(state).is_shutdown(),
{
    state.register_metric(name, MetricVal::Histogram(histogram), metadata)
}

/// Unregisters the metric under `name`.
pub fn unregister_metric(state: &mut State, name: &str) -> (r: Result<(), UnregisterError>)
    ensures
        old(state).is_shutdown() ==> r == Err::<(), UnregisterError>(
            UnregisterError::LibraryShutdown,
        ),
        !old(state).is_shutdown() && !old(state).registered().dom().contains(name@) ==> r
            == Err::<(), UnregisterError>(UnregisterError::NoSuchMetric),
        !old(state).is_shutdown() && old(state).registered().dom().contains(name@) ==> r is Ok,
        r is Ok ==> final(state).registered() == old(state).registered().remove(name@),
        r is Ok ==> final(state).instances() == old(state).instances().remove(name@),
        r is Err ==> final(state).registered() == old(state).registered(),
        r is Err ==> final(state).instances() == old(state).instances(),
        final(state).is_shutdown() == old(state).is_shutdown(),
{
    state.unregister_metric(name)
}

/// Records `count` instances of `value` at `time` into the metric under
/// `name` (the count only matters to histograms).
pub fn record_value<'a>(
    state: &State,
    name: &'a str,
    value: MetricValue,
    count: u64,
    time: Instant,
) -> (r: Result<Recorded, MetricError<'a>>)
    ensures
        !state.registered().dom().contains(name@) ==> r == Ok::<Recorded, MetricError<'a>>(
            Recorded::NotRegistered,
        ),
        state.registered().dom().contains(name@) ==> r == match state.registered()[name@] {
            MetricType::Counter => match value.spec_as_u64() {
                Some(v) => Ok(Recorded::CounterStore(v)),
                None => Err(MetricError::InvalidUnsignedValue(value.spec_value() as i64)),
            },
            MetricType::Gauge => match value.spec_as_i64() {
                Some(v) => Ok(Recorded::GaugeStore(v)),
                None => Err(MetricError::InvalidSignedValue(value.spec_value() as u64)),
            },
            MetricType::Histogram => match value.spec_as_u64() {
                Some(v) => Ok(Recorded::HistogramIncrement(v, count)),
                None => Err(MetricError::InvalidUnsignedValue(value.spec_value() as i64)),
            },
        },
        state.registered().dom().contains(name@) ==> match state.instances()[name@].spec_inner() {
            MetricVal::Counter(c) => (value.spec_as_u64() matches Some(v) ==> has_taken(c.target(), Update::CounterStore(time, v))),
            MetricVal::Gauge(g) => (value.spec_as_i64() matches Some(v) ==> has_taken(g.target(), Update::GaugeStore(time, v))),
            MetricVal::Histogram(h) => (value.spec_as_u64() matches Some(v)
                ==> has_taken(h.target(), Update::HistogramIncrement(time, v, count))),
        },
{
    state.record_value(name, value, count, time)
}

/// Metadata made of the given key-value pairs.
pub fn create_metadata(attributes: &'static [(&'static str, &'static str)]) -> (r: Metadata)
    ensures
        r.spec_attributes() == attributes@,
{
    Metadata::new(attributes)
}

/// The current time, for recording.
pub fn current_time() -> (r: Instant) {
    Instant::now()
}

} // verus!

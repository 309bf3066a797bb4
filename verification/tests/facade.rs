use rpc_perf::facade::instant::{Instant, Interval};
use rpc_perf::facade::metric::{Counter, DynCow, Gauge, Histogram, Metadata, MetricType};
use rpc_perf::facade::percentile::Percentile;
use rpc_perf::facade::state::{MetricError, Recorded, RegisterError, State, UnregisterError};
use rpc_perf::facade::value::MetricValue;
use rpc_perf::facade::{
    create_metadata, record_value, register_counter, register_gauge, register_histogram,
    unregister_metric,
};
use std::sync::atomic::{AtomicI64, AtomicU64, Ordering};
use std::sync::Arc;

struct TestCounter(Arc<AtomicU64>);

impl Counter for TestCounter {
    fn store(&self, _time: Instant, value: u64) {
        self.0.store(value, Ordering::SeqCst);
    }
    fn add(&self, _time: Instant, amount: u64) {
        self.0.fetch_add(amount, Ordering::SeqCst);
    }
    fn load(&self) -> u64 {
        self.0.load(Ordering::SeqCst)
    }
}

struct TestGauge(Arc<AtomicI64>);

impl Gauge for TestGauge {
    fn store(&self, _time: Instant, value: i64) {
        self.0.store(value, Ordering::SeqCst);
    }
    fn add(&self, _time: Instant, amount: i64) {
        self.0.fetch_add(amount, Ordering::SeqCst);
    }
    fn sub(&self, _time: Instant, amount: i64) {
        self.0.fetch_sub(amount, Ordering::SeqCst);
    }
    fn load(&self) -> u64 {
        self.0.load(Ordering::SeqCst) as u64
    }
}

struct TestHistogram(Arc<AtomicU64>);

impl Histogram for TestHistogram {
    fn increment(&self, _time: Instant, val: u64, count: u64) {
        self.0.fetch_add(val * count, Ordering::SeqCst);
    }
}

fn counter(cell: &Arc<AtomicU64>) -> DynCow<'static, dyn Counter> {
    DynCow::Owned(Box::new(TestCounter(cell.clone())))
}

#[test]
fn percentile_new_accepts_up_to_the_maximum() {
    assert_eq!(Percentile::new(500_000_000).map(|p| p.into_inner()), Some(500_000_000));
    assert_eq!(Percentile::new(1_000_000_000).map(|p| p.into_inner()), Some(1_000_000_000));
    assert!(Percentile::new(1_000_000_001).is_none());
    assert!(Percentile::new(u32::MAX).is_none());
}

#[test]
fn named_percentiles_have_their_values() {
    assert_eq!(Percentile::minimum().into_inner(), 0);
    assert_eq!(Percentile::p001().into_inner(), 100_000);
    assert_eq!(Percentile::p01().into_inner(), 1_000_000);
    assert_eq!(Percentile::p1().into_inner(), 10_000_000);
    assert_eq!(Percentile::p5().into_inner(), 50_000_000);
    assert_eq!(Percentile::p10().into_inner(), 100_000_000);
    assert_eq!(Percentile::p25().into_inner(), 250_000_000);
    assert_eq!(Percentile::p50().into_inner(), 500_000_000);
    assert_eq!(Percentile::p75().into_inner(), 750_000_000);
    assert_eq!(Percentile::p90().into_inner(), 900_000_000);
    assert_eq!(Percentile::p95().into_inner(), 950_000_000);
    assert_eq!(Percentile::p99().into_inner(), 990_000_000);
    assert_eq!(Percentile::p999().into_inner(), 999_000_000);
    assert_eq!(Percentile::p9999().into_inner(), 999_900_000);
    assert_eq!(Percentile::maximum().into_inner(), 1_000_000_000);
}

#[test]
fn named_percentiles_are_ordered() {
    let all = [
        Percentile::minimum(),
        Percentile::p001(),
        Percentile::p01(),
        Percentile::p1(),
        Percentile::p5(),
        Percentile::p10(),
        Percentile::p25(),
        Percentile::p50(),
        Percentile::p75(),
        Percentile::p90(),
        Percentile::p95(),
        Percentile::p99(),
        Percentile::p999(),
        Percentile::p9999(),
        Percentile::maximum(),
    ];
    for w in all.windows(2) {
        assert!(w[0].into_inner() < w[1].into_inner());
    }
}

#[test]
fn interval_conversions() {
    assert_eq!(Interval::from_seconds(2).as_nanos(), 2_000_000_000);
    assert_eq!(Interval::from_millis(1_500).as_seconds(), 1);
    assert_eq!(Interval::from_millis(1_500).as_millis(), 1_500);
    assert_eq!(Interval::from_micros(7).as_nanos(), 7_000);
    assert_eq!(Interval::from_nanos(1_999).as_micros(), 1);
    assert_eq!(Interval::from_seconds(3).as_millis(), 3_000);
}

#[test]
fn interval_saturates() {
    assert_eq!(Interval::from_seconds(u64::MAX).as_nanos(), u64::MAX);
    assert_eq!(Interval::from_millis(u64::MAX / 1_000).as_nanos(), u64::MAX);
    assert_eq!(Interval::from_micros(u64::MAX).as_nanos(), u64::MAX);
}

#[test]
fn interval_roundtrip() {
    for s in [0u64, 1, 59, 3_600, 18_446_744_073] {
        assert_eq!(Interval::from_seconds(s).as_seconds(), s);
    }
    for ms in [0u64, 1, 999, 18_446_744_073_709] {
        assert_eq!(Interval::from_millis(ms).as_millis(), ms);
    }
}

#[test]
fn instant_difference() {
    let a = Instant::from_nanos_since_epoch(10);
    let b = Instant::from_nanos_since_epoch(3);
    assert_eq!((a - b).as_nanos(), 7);
    assert_eq!((b - a).as_nanos(), 0);
}

#[test]
fn metric_value_readings() {
    assert_eq!(MetricValue::Signed(-1).as_u64(), None);
    assert_eq!(MetricValue::Signed(5).as_u64(), Some(5));
    assert_eq!(MetricValue::Unsigned(u64::MAX).as_i64(), None);
    assert_eq!(MetricValue::Unsigned(7).as_i64(), Some(7));
    assert_eq!(MetricValue::Unsigned(u64::MAX).as_i64_unchecked(), -1);
    assert_eq!(MetricValue::Signed(-1).as_u64_unchecked(), u64::MAX);
}

#[test]
fn metric_value_from_integers() {
    assert_eq!(MetricValue::from(3u8), MetricValue::Unsigned(3));
    assert_eq!(MetricValue::from(3u16), MetricValue::Unsigned(3));
    assert_eq!(MetricValue::from(3u32), MetricValue::Unsigned(3));
    assert_eq!(MetricValue::from(3u64), MetricValue::Unsigned(3));
    assert_eq!(MetricValue::from(-3i8), MetricValue::Signed(-3));
    assert_eq!(MetricValue::from(-3i16), MetricValue::Signed(-3));
    assert_eq!(MetricValue::from(-3i32), MetricValue::Signed(-3));
    assert_eq!(MetricValue::from(-3i64), MetricValue::Signed(-3));
    assert_eq!(MetricValue::from(42u32).as_u64(), Some(42));
}

#[test]
fn register_then_record_and_unregister() {
    let mut state = State::new();
    let cell = Arc::new(AtomicU64::new(0));
    assert_eq!(register_counter(&mut state, "hits".to_string(), counter(&cell), Metadata::empty()), Ok(()));
    let r = record_value(&state, "hits", MetricValue::Unsigned(5), 1, Instant::from_nanos_since_epoch(0));
    assert!(matches!(r, Ok(Recorded::CounterStore(5))));
    assert_eq!(cell.load(Ordering::SeqCst), 5);
    assert_eq!(unregister_metric(&mut state, "hits"), Ok(()));
    let r = record_value(&state, "hits", MetricValue::Unsigned(9), 1, Instant::from_nanos_since_epoch(0));
    assert!(matches!(r, Ok(Recorded::NotRegistered)));
    assert_eq!(cell.load(Ordering::SeqCst), 5);
}

#[test]
fn register_twice_is_refused() {
    let mut state = State::new();
    let cell = Arc::new(AtomicU64::new(0));
    assert_eq!(register_counter(&mut state, "a".to_string(), counter(&cell), Metadata::empty()), Ok(()));
    assert_eq!(
        register_counter(&mut state, "a".to_string(), counter(&cell), Metadata::empty()),
        Err(RegisterError::MetricAlreadyExists)
    );
}

#[test]
fn unregister_unknown_is_refused() {
    let mut state = State::new();
    assert_eq!(unregister_metric(&mut state, "nothing"), Err(UnregisterError::NoSuchMetric));
}

#[test]
fn shutdown_refuses_registration() {
    let mut state = State::new();
    let cell = Arc::new(AtomicU64::new(0));
    assert_eq!(register_counter(&mut state, "a".to_string(), counter(&cell), Metadata::empty()), Ok(()));
    state.shutdown();
    assert_eq!(
        register_counter(&mut state, "b".to_string(), counter(&cell), Metadata::empty()),
        Err(RegisterError::LibraryShutdown)
    );
    assert_eq!(unregister_metric(&mut state, "a"), Err(UnregisterError::LibraryShutdown));
    let r = state.record_counter_value("a", 3, Instant::from_nanos_since_epoch(0));
    assert!(matches!(r, Ok(Recorded::Shutdown)));
    assert_eq!(cell.load(Ordering::SeqCst), 0);
}

#[test]
fn gauge_and_histogram_recordings() {
    let mut state = State::new();
    let g = Arc::new(AtomicI64::new(0));
    let h = Arc::new(AtomicU64::new(0));
    let meta = create_metadata(&[("unit", "requests")]);
    assert_eq!(meta.attributes().len(), 1);
    assert_eq!(register_gauge(&mut state, "inflight".to_string(), DynCow::Owned(Box::new(TestGauge(g.clone()))), meta), Ok(()));
    assert_eq!(register_histogram(&mut state, "latency".to_string(), DynCow::Owned(Box::new(TestHistogram(h.clone()))), Metadata::empty()), Ok(()));
    let t = Instant::from_nanos_since_epoch(0);
    assert!(matches!(state.record_value("inflight", MetricValue::Signed(-4), 1, t), Ok(Recorded::GaugeStore(-4))));
    assert_eq!(g.load(Ordering::SeqCst), -4);
    assert!(matches!(state.record_increment("inflight", MetricValue::Signed(10), t), Ok(Recorded::GaugeAdd(10))));
    assert!(matches!(state.record_decrement("inflight", MetricValue::Unsigned(1), t), Ok(Recorded::GaugeSub(1))));
    assert_eq!(g.load(Ordering::SeqCst), 5);
    assert!(matches!(state.record_value("latency", MetricValue::Unsigned(3), 2, t), Ok(Recorded::HistogramIncrement(3, 2))));
    assert_eq!(h.load(Ordering::SeqCst), 6);
    assert!(matches!(
        state.record_value("latency", MetricValue::Signed(-1), 1, t),
        Err(MetricError::InvalidUnsignedValue(-1))
    ));
    assert!(matches!(
        state.record_value("inflight", MetricValue::Unsigned(u64::MAX), 1, t),
        Err(MetricError::InvalidSignedValue(u64::MAX))
    ));
    assert!(matches!(
        state.record_increment("latency", MetricValue::Unsigned(1), t),
        Err(MetricError::InvalidIncrement { ty: MetricType::Histogram, .. })
    ));
    assert!(matches!(
        state.record_decrement("latency", MetricValue::Unsigned(1), t),
        Err(MetricError::InvalidDecrement { ty: MetricType::Histogram, .. })
    ));
    assert!(matches!(
        state.record_counter_value("inflight", 1, t),
        Err(MetricError::WrongType { expected: MetricType::Counter, found: MetricType::Gauge, .. })
    ));
    assert!(matches!(state.record_gauge_value("inflight", 8, t), Ok(Recorded::GaugeStore(8))));
    assert_eq!(g.load(Ordering::SeqCst), 8);
}

#[test]
fn percentiles_compare_by_value() {
    assert_eq!(Percentile::new(1_000_000_000), Some(Percentile::maximum()));
    assert_eq!(Percentile::new(0).unwrap(), Percentile::minimum());
    assert_eq!(Percentile::new(500_000_000), Some(Percentile::p50()));
    assert_ne!(Percentile::p50(), Percentile::p90());
    assert!(Percentile::minimum() < Percentile::p50());
    assert!(Percentile::p50() < Percentile::maximum());
    assert!(Percentile::p9999() <= Percentile::maximum());
    assert_eq!(Percentile::p50().max(Percentile::p99()), Percentile::p99());
    let mut ps = vec![Percentile::p99(), Percentile::minimum(), Percentile::p25()];
    ps.sort();
    assert_eq!(ps, vec![Percentile::minimum(), Percentile::p25(), Percentile::p99()]);
}

use crate::facade::instant::Instant;
use vstd::pervasive::arbitrary;
use vstd::prelude::*;

verus! {

/// The kind of a metric.
#[derive(Clone, Copy, Debug, PartialEq, Eq, Structural)]
pub enum MetricType {
    Counter,
    Gauge,
    Histogram,
}

/// An update made to a metric by one of its methods, with the method's
/// arguments.
#[derive(Clone, Copy)]
pub enum Update {
    /// `Counter::store(time, value)`: the counter reads `value`.
    CounterStore(Instant, u64),
    /// `Counter::add(time, amount)`: the counter reads what it read
    /// before, plus `amount`.
    CounterAdd(Instant, u64),
    /// `Gauge::store(time, value)`: the gauge reads `value`.
    GaugeStore(Instant, i64),
    /// `Gauge::add(time, amount)`: the gauge reads what it read before,
    /// plus `amount`.
    GaugeAdd(Instant, i64),
    /// `Gauge::sub(time, amount)`: the gauge reads what it read before,
    /// minus `amount`.
    GaugeSub(Instant, i64),
    /// `Histogram::increment(time, val, count)`: the histogram holds
    /// `count` more instances of `val`.
    HistogramIncrement(Instant, u64, u64),
}

/// Whether `metric` has taken `update`. A metric keeps its state behind a
/// shared reference, where Verus does not follow it, so the state itself
/// is not modelled: each update method's contract records, by this
/// predicate, the update it makes, and nothing else is known of it. One
/// update never stands for another.
pub closed spec fn has_taken<T: ?Sized>(metric: &T, update: Update) -> bool {
    arbitrary::<spec_fn(&T, Update) -> bool>()(metric, update)
}

/// A counter: counts things (hits on an endpoint, runs of a function).
/// Each update method takes its update (see `Update`).
pub trait Counter {
    /// Sets the value of the counter.
    fn store(&self, time: Instant, value: u64)
        ensures
            has_taken(self, Update::CounterStore(time, value)),
    ;

    /// Adds to the counter.
    fn add(&self, time: Instant, amount: u64)
        ensures
            has_taken(self, Update::CounterAdd(time, amount)),
    ;

    /// The current value of the counter.
    fn load(&self) -> u64;
}

/// A gauge: the instantaneous value of some property (requests in flight,
/// memory in use). Each update method takes its update (see `Update`).
pub trait Gauge {
    /// Sets the value of the gauge.
    fn store(&self, time: Instant, value: i64)
        ensures
            has_taken(self, Update::GaugeStore(time, value)),
    ;

    /// Adds to the gauge.
    fn add(&self, time: Instant, amount: i64)
        ensures
            has_taken(self, Update::GaugeAdd(time, amount)),
    ;

    /// Subtracts from the gauge.
    fn sub(&self, time: Instant, amount: i64)
        ensures
            has_taken(self, Update::GaugeSub(time, amount)),
    ;

    /// The current value of the gauge.
    fn load(&self) -> u64;
}

/// A histogram: records values and summarises them. Its recording takes
/// its update (see `Update`).
pub trait Histogram {
    /// Records `count` instances of `val`.
    fn increment(&self, time: Instant, val: u64, count: u64)
        ensures
            has_taken(self, Update::HistogramIncrement(time, val, count)),
    ;
}

/// A metric held either by a shared reference or owned in a box.
pub enum DynCow<'a, T: ?Sized> {
    Borrowed(&'a T),
    Owned(Box<T>),
}

impl<'a, T: ?Sized> DynCow<'a, T> {
    /// The metric held, by reference or in the box.
    pub open spec fn target(&self) -> &T {
        match self {
            DynCow::Borrowed(x) => x,
            DynCow::Owned(b) => &**b,
        }
    }

    /// The metric, however it is held.
    pub fn deref(&self) -> (r: &T)
        ensures
            r == self.target(),
    {
        match self {
            DynCow::Borrowed(x) => x,
            DynCow::Owned(x) => &**x,
        }
    }
}

/// Static key-value properties of a metric.
#[derive(Clone, Copy)]
pub struct Metadata {
    attributes: &'static [(&'static str, &'static str)],
}

impl Metadata {
    /// The attributes held.
    pub closed spec fn spec_attributes(&self) -> Seq<(&'static str, &'static str)> {
        self.attributes@
    }

    /// Metadata with the given attributes.
    pub fn new(attributes: &'static [(&'static str, &'static str)]) -> (r: Self)
        ensures
            r.spec_attributes() == attributes@,
    {
        Metadata { attributes }
    }

    /// Metadata with no attributes.
    pub fn empty() -> (r: Self)
        ensures
            r.spec_attributes().len() == 0,
    {
        Metadata { attributes: &[] }
    }

    /// The attributes.
    pub fn attributes(&self) -> (r: &'static [(&'static str, &'static str)])
        ensures
            r@ == self.spec_attributes(),
    {
        self.attributes
    }
}

/// A registered metric of one of the three kinds.
pub enum MetricVal {
    Counter(DynCow<'static, dyn Counter>),
    Gauge(DynCow<'static, dyn Gauge>),
    Histogram(DynCow<'static, dyn Histogram>),
}

impl MetricVal {
    pub open spec fn spec_ty(&self) -> MetricType {
        match self {
            MetricVal::Counter(_) => MetricType::Counter,
            MetricVal::Gauge(_) => MetricType::Gauge,
            MetricVal::Histogram(_) => MetricType::Histogram,
        }
    }

    /// The kind of the metric.
    pub fn ty(&self) -> (r: MetricType)
        ensures
            r == self.spec_ty(),
    {
        match self {
            MetricVal::Counter(_) => MetricType::Counter,
            MetricVal::Gauge(_) => MetricType::Gauge,
            MetricVal::Histogram(_) => MetricType::Histogram,
        }
    }
}

/// A metric together with its metadata.
pub struct MetricInstance {
    pub(crate) inner: MetricVal,
    pub(crate) metadata: Metadata,
}

impl MetricInstance {
    /// The metric held.
    pub closed spec fn spec_inner(&self) -> MetricVal {
        self.inner
    }

    pub(crate) proof fn lemma_fields(&self)
        ensures
            self.spec_inner() == self.inner,
            self.spec_metadata() == self.metadata,
    {
    }

    /// The metadata held.
    pub closed spec fn spec_metadata(&self) -> Metadata {
        self.metadata
    }

    /// The instance holding `metric` with `metadata`.
    pub closed spec fn spec_made(metric: MetricVal, metadata: Metadata) -> MetricInstance {
        MetricInstance { inner: metric, metadata }
    }

    /// An instance made of a metric and metadata holds them.
    pub proof fn lemma_made(metric: MetricVal, metadata: Metadata)
        ensures
            Self::spec_made(metric, metadata).spec_inner() == metric,
            Self::spec_made(metric, metadata).spec_metadata() == metadata,
    {
    }

    pub(crate) fn new(metric: MetricVal, metadata: Metadata) -> (r: Self)
        ensures
            r == Self::spec_made(metric, metadata),
            r.spec_inner() == metric,
            r.spec_metadata() == metadata,
    {
        MetricInstance { inner: metric, metadata }
    }

    /// The kind of the metric.
    pub fn ty(&self) -> (r: MetricType)
        ensures
            r == self.spec_inner().spec_ty(),
    {
        self.inner.ty()
    }

    /// The metadata of the metric.
    pub fn metadata(&self) -> (r: &Metadata)
        ensures
            *r == self.spec_metadata(),
    {
        &self.metadata
    }

    /// The metric itself.
    pub fn metric(&self) -> (r: &MetricVal)
        ensures
            *r == self.spec_inner(),
    {
        &self.inner
    }

    /// The metric, when it is a counter.
    pub fn as_counter(&self) -> (r: Option<&dyn Counter>)
        ensures
            r is Some <==> self.spec_inner().spec_ty() == MetricType::Counter,
            r matches Some(m) ==> self.spec_inner() matches MetricVal::Counter(d) && m == d.target(),
    {
        match &self.inner {
            MetricVal::Counter(c) => {
                let t = c.deref();
                assert(self.spec_inner() matches MetricVal::Counter(d) && t == d.target());
                let r = Some(t);
                assert(r matches Some(m) && m == t);
                r
            },
            _ => None,
        }
    }

    /// The metric, when it is a gauge.
    pub fn as_gauge(&self) -> (r: Option<&dyn Gauge>)
        ensures
            r is Some <==> self.spec_inner().spec_ty() == MetricType::Gauge,
            r matches Some(m) ==> self.spec_inner() matches MetricVal::Gauge(d) && m == d.target(),
    {
        match &self.inner {
            MetricVal::Gauge(g) => {
                let t = g.deref();
                assert(self.spec_inner() matches MetricVal::Gauge(d) && t == d.target());
                let r = Some(t);
                assert(r matches Some(m) && m == t);
                r
            },
            _ => None,
        }
    }

    /// The metric, when it is a histogram.
    pub fn as_histogram(&self) -> (r: Option<&dyn Histogram>)
        ensures
            r is Some <==> self.spec_inner().spec_ty() == MetricType::Histogram,
            r matches Some(m) ==> self.spec_inner() matches MetricVal::Histogram(d) && m == d.target(),
    {
        match &self.inner {
            MetricVal::Histogram(h) => {
                let t = h.deref();
                assert(self.spec_inner() matches MetricVal::Histogram(d) && t == d.target());
                let r = Some(t);
                assert(r matches Some(m) && m == t);
                r
            },
            _ => None,
        }
    }
}

} // verus!

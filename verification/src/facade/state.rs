use crate::facade::instant::Instant;
use crate::facade::metric::{
    has_taken, Counter, Gauge, Histogram, Metadata, MetricInstance, MetricType, MetricVal, Update,
};
use crate::facade::value::MetricValue;
use vstd::prelude::*;

verus! {

/// Why a metric could not be registered.
#[derive(Clone, Copy, Debug, PartialEq, Eq, Structural)]
pub enum RegisterError {
    /// A metric has already been registered under that name.
    MetricAlreadyExists,
    /// The metric library has been shut down.
    LibraryShutdown,
}

/// Why a metric could not be unregistered.
#[derive(Clone, Copy, Debug, PartialEq, Eq, Structural)]
pub enum UnregisterError {
    /// There is no metric with that name to remove.
    NoSuchMetric,
    /// The metric library has been shut down.
    LibraryShutdown,
}

/// Why a value could not be recorded.
#[derive(Clone, Copy, Debug)]
pub enum MetricError<'a> {
    UnknownMetric(&'a str),
    /// A negative value for a metric that takes unsigned values.
    InvalidUnsignedValue(i64),
    /// A value above `i64::MAX` for a metric that takes signed values.
    InvalidSignedValue(u64),
    /// The metric cannot be incremented (it is a histogram).
    InvalidIncrement { metric: &'a str, ty: MetricType },
    /// The metric cannot be decremented (it is a histogram or a counter).
    InvalidDecrement { metric: &'a str, ty: MetricType },
    WrongType { metric: &'a str, expected: MetricType, found: MetricType },
}

/// What a recording did to the metric registered under the name.
#[derive(Clone, Copy, Debug, PartialEq, Eq, Structural)]
pub enum Recorded {
    /// No metric is registered under the name: nothing was done.
    NotRegistered,
    /// The library is shut down: nothing was done.
    Shutdown,
    CounterStore(u64),
    CounterAdd(u64),
    GaugeStore(i64),
    GaugeAdd(i64),
    GaugeSub(i64),
    HistogramIncrement(u64, u64),
}

struct Entry {
    name: String,
    instance: MetricInstance,
}

/// The names and kinds of the registered metrics, the latest entry last.
pub open spec fn to_map<V>(s: Seq<(Seq<char>, V)>) -> Map<Seq<char>, V>
    decreases s.len(),
{
    if s.len() == 0 {
        Map::empty()
    } else {
        to_map(s.drop_last()).insert(s.last().0, s.last().1)
    }
}

pub open spec fn distinct_names<V>(s: Seq<(Seq<char>, V)>) -> bool {
    forall|i: int, j: int| 0 <= i < j < s.len() ==> s[i].0 != s[j].0
}

proof fn lemma_to_map_dom<V>(s: Seq<(Seq<char>, V)>, k: Seq<char>)
    requires
        distinct_names(s),
    ensures
        to_map(s).dom().contains(k) <==> exists|i: int| 0 <= i < s.len() && s[i].0 == k,
        forall|i: int| 0 <= i < s.len() ==> #[trigger] to_map(s)[s[i].0] == s[i].1,
    decreases s.len(),
{
    if s.len() > 0 {
        let d = s.drop_last();
        lemma_to_map_dom(d, k);
        if to_map(s).dom().contains(k) && k != s.last().0 {
            let i = choose|i: int| 0 <= i < d.len() && d[i].0 == k;
            assert(s[i].0 == k);
        }
        if exists|i: int| 0 <= i < s.len() && s[i].0 == k {
            let i = choose|i: int| 0 <= i < s.len() && s[i].0 == k;
            if i < d.len() {
                assert(d[i].0 == k);
            }
        }
        assert forall|i: int| 0 <= i < s.len() implies #[trigger] to_map(s)[s[i].0] == s[i].1 by {
            if i < d.len() {
                lemma_to_map_dom(d, s[i].0);
                assert(d[i] == s[i]);
                assert(s[i].0 != s.last().0);
            }
        }
    }
}

proof fn lemma_to_map_remove<V>(s: Seq<(Seq<char>, V)>, i: int)
    requires
        distinct_names(s),
        0 <= i < s.len(),
    ensures
        to_map(s.remove(i)) =~= to_map(s).remove(s[i].0),
        distinct_names(s.remove(i)),
    decreases s.len(),
{
    let k = s[i].0;
    if i == s.len() - 1 {
        assert(s.remove(i) =~= s.drop_last());
        lemma_to_map_dom(s.drop_last(), k);
        assert forall|j: int| 0 <= j < s.drop_last().len() implies s.drop_last()[j].0 != k by {
            assert(s[j] == s.drop_last()[j]);
        }
    } else {
        let d = s.drop_last();
        lemma_to_map_remove(d, i);
        assert(s.remove(i).drop_last() =~= d.remove(i));
        assert(s.remove(i).last() == s.last());
        assert(s.last().0 != k);
    }
}

spec fn view_of(entries: Seq<Entry>) -> Seq<(Seq<char>, MetricType)> {
    entries.map_values(|e: Entry| (e.name@, e.instance.spec_inner().spec_ty()))
}

spec fn instances_of(entries: Seq<Entry>) -> Seq<(Seq<char>, MetricInstance)> {
    entries.map_values(|e: Entry| (e.name@, e.instance))
}

/// The names of the instances are those of the kinds.
proof fn lemma_instances_distinct(entries: Seq<Entry>)
    requires
        distinct_names(view_of(entries)),
    ensures
        distinct_names(instances_of(entries)),
{
    assert forall|i: int, j: int| 0 <= i < j < instances_of(entries).len() implies instances_of(entries)[i].0
        != instances_of(entries)[j].0 by {
        assert(view_of(entries)[i].0 == instances_of(entries)[i].0);
        assert(view_of(entries)[j].0 == instances_of(entries)[j].0);
    }
}

/// With distinct names, the instance under an entry's name is that entry's.
proof fn lemma_instance_at(entries: Seq<Entry>, i: int)
    requires
        distinct_names(view_of(entries)),
        0 <= i < entries.len(),
    ensures
        to_map(instances_of(entries))[entries[i].name@] == entries[i].instance,
{
    lemma_instances_distinct(entries);
    lemma_to_map_dom(instances_of(entries), entries[i].name@);
    assert(instances_of(entries)[i] == (entries[i].name@, entries[i].instance));
}

/// Names to instances and names to kinds are built from the same entries,
/// the later entry under a name winning in both.
proof fn lemma_instances_follow_kinds(entries: Seq<Entry>)
    ensures
        to_map(instances_of(entries)).dom() =~= to_map(view_of(entries)).dom(),
        forall|k: Seq<char>|
            #[trigger] to_map(view_of(entries)).dom().contains(k) ==> to_map(
                instances_of(entries),
            )[k].spec_inner().spec_ty() == to_map(view_of(entries))[k],
    decreases entries.len(),
{
    if entries.len() > 0 {
        let d = entries.drop_last();
        lemma_instances_follow_kinds(d);
        assert(instances_of(entries).drop_last() =~= instances_of(d));
        assert(view_of(entries).drop_last() =~= view_of(d));
    }
}

/// The registry of metrics, by name.
pub struct State {
    entries: Vec<Entry>,
    destroyed: bool,
}

impl State {
    /// The names and kinds of the registered metrics, in registration order.
    pub closed spec fn entries_view(self) -> Seq<(Seq<char>, MetricType)> {
        view_of(self.entries@)
    }

    /// The registered metrics: each name to the kind of its metric.
    pub open spec fn registered(self) -> Map<Seq<char>, MetricType> {
        to_map(self.entries_view())
    }

    /// The registered metrics: each name to the instance registered under
    /// it, which holds the metric and the metadata given.
    pub closed spec fn instances(self) -> Map<Seq<char>, MetricInstance> {
        to_map(instances_of(self.entries@))
    }

    /// Whether the library has been shut down.
    pub closed spec fn is_shutdown(self) -> bool {
        self.destroyed
    }

    #[verifier::type_invariant]
    closed spec fn wf(self) -> bool {
        distinct_names(self.entries_view())
    }

    /// An empty registry.
    pub fn new() -> (r: Self)
        ensures
            r.registered() == Map::<Seq<char>, MetricType>::empty(),
            r.instances() == Map::<Seq<char>, MetricInstance>::empty(),
            !r.is_shutdown(),
    {
        let r = State { entries: Vec::new(), destroyed: false };
        assert(r.entries_view() =~= Seq::empty());
        assert(instances_of(r.entries@) =~= Seq::empty());
        r
    }

    /// Stops the registry: no metric can be registered or unregistered,
    /// and typed recordings are dropped.
    pub fn shutdown(&mut self)
        ensures
            final(self).is_shutdown(),
            final(self).registered() == old(self).registered(),
            final(self).instances() == old(self).instances(),
    {
        proof {
            use_type_invariant(&*self);
        }
        self.destroyed = true;
    }

    /// The position of the entry named `name`, if any.
    fn find(&self, name: &str) -> (r: Option<usize>)
        ensures
            r is None <==> !self.registered().dom().contains(name@),
            r matches Some(i) ==> i < self.entries_view().len() && self.entries_view()[i as int].0
                == name@,
    {
        proof {
            use_type_invariant(self);
            lemma_to_map_dom(self.entries_view(), name@);
        }
        let key = name.to_owned();
        let mut i: usize = 0;
        while i < self.entries.len()
            invariant
                i <= self.entries@.len(),
                key@ == name@,
                forall|j: int| 0 <= j < i ==> #[trigger] self.entries_view()[j].0 != name@,
            decreases self.entries@.len() - i,
        {
            if self.entries[i].name == key {
                assert(self.entries_view()[i as int].0 == name@);
                proof {
                    use_type_invariant(self);
                    lemma_to_map_dom(self.entries_view(), name@);
                }
                return Some(i);
            }
            i = i + 1;
        }
        None
    }

    /// Registers `metric` under `name`: refused when the library is shut
    /// down, or when the name is taken.
    pub fn register_metric(&mut self, name: String, metric: MetricVal, metadata: Metadata) -> (r:
        Result<(), RegisterError>)
        ensures
            old(self).is_shutdown() ==> r == Err::<(), RegisterError>(
                RegisterError::LibraryShutdown,
            ),
            !old(self).is_shutdown() && old(self).registered().dom().contains(name@) ==> r
                == Err::<(), RegisterError>(RegisterError::MetricAlreadyExists),
            !old(self).is_shutdown() && !old(self).registered().dom().contains(name@) ==> r
                is Ok,
            r is Ok ==> final(self).registered() == old(self).registered().insert(
                name@,
                metric.spec_ty(),
            ),
            r is Ok ==> final(self).instances() == old(self).instances().insert(
                name@,
                MetricInstance::spec_made(metric, metadata),
            ),
            r is Err ==> final(self).registered() == old(self).registered(),
            r is Err ==> final(self).instances() == old(self).instances(),
            final(self).is_shutdown() == old(self).is_shutdown(),
    {
        proof {
            use_type_invariant(&*self);
        }
        if self.destroyed {
            return Err(RegisterError::LibraryShutdown);
        }
        if self.find(name.as_str()).is_some() {
            return Err(RegisterError::MetricAlreadyExists);
        }
        let ghost old_view = self.entries_view();
        let ghost old_inst = instances_of(self.entries@);
        let ghost ty = metric.spec_ty();
        let instance = MetricInstance::new(metric, metadata);
        let ghost made = instance;
        let mut entries: Vec<Entry> = Vec::new();
        std::mem::swap(&mut entries, &mut self.entries);
        let ghost key = name@;
        entries.push(Entry { name, instance });
        proof {
            lemma_to_map_dom(old_view, key);
            assert(view_of(entries@) =~= old_view.push((key, ty)));
            assert(instances_of(entries@) =~= old_inst.push((key, made)));
            assert(instances_of(entries@).drop_last() =~= old_inst);
            assert(view_of(entries@).drop_last() =~= old_view);
            assert forall|a: int, b: int| 0 <= a < b < view_of(entries@).len() implies view_of(
                entries@,
            )[a].0 != view_of(entries@)[b].0 by {
                if b == old_view.len() {
                    assert(view_of(entries@)[a] == old_view[a]);
                }
            }
        }
        self.entries = entries;
        Ok(())
    }

    /// Unregisters the metric under `name`: refused when the library is
    /// shut down, or when no metric has that name.
    pub fn unregister_metric(&mut self, name: &str) -> (r: Result<(), UnregisterError>)
        ensures
            old(self).is_shutdown() ==> r == Err::<(), UnregisterError>(
                UnregisterError::LibraryShutdown,
            ),
            !old(self).is_shutdown() && !old(self).registered().dom().contains(name@) ==> r
                == Err::<(), UnregisterError>(UnregisterError::NoSuchMetric),
            !old(self).is_shutdown() && old(self).registered().dom().contains(name@) ==> r is Ok,
            r is Ok ==> final(self).registered() == old(self).registered().remove(name@),
            r is Ok ==> final(self).instances() == old(self).instances().remove(name@),
            r is Err ==> final(self).registered() == old(self).registered(),
            r is Err ==> final(self).instances() == old(self).instances(),
            final(self).is_shutdown() == old(self).is_shutdown(),
    {
        proof {
            use_type_invariant(&*self);
        }
        if self.destroyed {
            return Err(UnregisterError::LibraryShutdown);
        }
        match self.find(name) {
            None => Err(UnregisterError::NoSuchMetric),
            Some(i) => {
                let ghost old_view = self.entries_view();
                let ghost old_inst = instances_of(self.entries@);
                let mut entries: Vec<Entry> = Vec::new();
                std::mem::swap(&mut entries, &mut self.entries);
                let _removed = entries.remove(i);
                proof {
                    assert(view_of(entries@) =~= old_view.remove(i as int));
                    lemma_to_map_remove(old_view, i as int);
                    lemma_instances_distinct(old(self).entries@);
                    assert(instances_of(entries@) =~= old_inst.remove(i as int));
                    assert(old_inst[i as int].0 == old_view[i as int].0);
                    lemma_to_map_remove(old_inst, i as int);
                }
                self.entries = entries;
                Ok(())
            },
        }
    }

    /// Records `value` into the metric under `name`: a counter stores it as
    /// unsigned, a gauge as signed, a histogram adds `count` instances of it
    /// as unsigned; a value the metric cannot take is an error, and an
    /// unknown name does nothing.
    pub fn record_value<'a>(&self, name: &'a str, value: MetricValue, count: u64, time: Instant) -> (r:
        Result<Recorded, MetricError<'a>>)
        ensures
            !self.registered().dom().contains(name@) ==> r == Ok::<Recorded, MetricError<'a>>(
                Recorded::NotRegistered,
            ),
            self.registered().dom().contains(name@) ==> r == match self.registered()[name@] {
                MetricType::Counter => match value.spec_as_u64() {
                    Some(v) => Ok(Recorded::CounterStore(v)),
                    None => Err(MetricError::InvalidUnsignedValue(value.spec_value() as i64)),
                },
                MetricType::Gauge => match value.spec_as_i64() {
                    Some(v) => Ok(Recorded::GaugeStore(v)),
                    None => Err(MetricError::InvalidSignedValue(value.spec_value() as u64)),
                },
                MetricType::Histogram => match value.spec_as_u64() {
                    Some(v) => Ok(Recorded::HistogramIncrement(v, count)),
                    None => Err(MetricError::InvalidUnsignedValue(value.spec_value() as i64)),
                },
            },
            self.registered().dom().contains(name@) ==> match self.instances()[name@].spec_inner() {
                MetricVal::Counter(c) => (value.spec_as_u64() matches Some(v) ==> has_taken(c.target(), Update::CounterStore(time, v))),
                MetricVal::Gauge(g) => (value.spec_as_i64() matches Some(v) ==> has_taken(g.target(), Update::GaugeStore(time, v))),
                MetricVal::Histogram(h) => (value.spec_as_u64() matches Some(v)
                    ==> has_taken(h.target(), Update::HistogramIncrement(time, v, count))),
            },
    {
        proof {
            use_type_invariant(self);
            lemma_to_map_dom(self.entries_view(), name@);
        }
        let i = match self.find(name) {
            None => return Ok(Recorded::NotRegistered),
            Some(i) => i,
        };
        assert(self.entries_view()[i as int] == (
            self.entries@[i as int].name@,
            self.entries@[i as int].instance.spec_inner().spec_ty(),
        ));
        assert(self.registered()[name@] == self.entries@[i as int].instance.spec_inner().spec_ty());
        proof {
            self.entries@[i as int].instance.lemma_fields();
            lemma_instance_at(self.entries@, i as int);
        }
        match &self.entries[i].instance.inner {
            MetricVal::Counter(counter) => match value.as_u64() {
                Some(v) => {
                    counter.deref().store(time, v);
                    Ok(Recorded::CounterStore(v))
                },
                None => Err(MetricError::InvalidUnsignedValue(value.as_i64_unchecked())),
            },
            MetricVal::Gauge(gauge) => match value.as_i64() {
                Some(v) => {
                    gauge.deref().store(time, v);
                    Ok(Recorded::GaugeStore(v))
                },
                None => Err(MetricError::InvalidSignedValue(value.as_u64_unchecked())),
            },
            MetricVal::Histogram(histogram) => match value.as_u64() {
                Some(v) => {
                    histogram.deref().increment(time, v, count);
                    Ok(Recorded::HistogramIncrement(v, count))
                },
                None => Err(MetricError::InvalidUnsignedValue(value.as_i64_unchecked())),
            },
        }
    }

    /// The entry named `name`, with the facts that tie it to the view.
    fn lookup(&self, name: &str) -> (r: Option<&MetricInstance>)
        ensures
            r is None <==> !self.registered().dom().contains(name@),
            r matches Some(inst) ==> self.registered()[name@] == inst.spec_inner().spec_ty()
                && inst.spec_inner() == inst.inner && *inst == self.instances()[name@],
    {
        proof {
            use_type_invariant(self);
            lemma_to_map_dom(self.entries_view(), name@);
        }
        match self.find(name) {
            None => None,
            Some(i) => {
                assert(self.entries_view()[i as int] == (
                    self.entries@[i as int].name@,
                    self.entries@[i as int].instance.spec_inner().spec_ty(),
                ));
                proof {
                    self.entries@[i as int].instance.lemma_fields();
                    lemma_instance_at(self.entries@, i as int);
                }
                Some(&self.entries[i].instance)
            },
        }
    }

    /// Adds `value` to the counter or gauge under `name`; a histogram
    /// cannot be incremented, and a value the metric cannot take is an
    /// error; an unknown name does nothing.
    pub fn record_increment<'a>(&self, name: &'a str, value: MetricValue, time: Instant) -> (r:
        Result<Recorded, MetricError<'a>>)
        ensures
            !self.registered().dom().contains(name@) ==> r == Ok::<Recorded, MetricError<'a>>(
                Recorded::NotRegistered,
            ),
            self.registered().dom().contains(name@) ==> r == match self.registered()[name@] {
                MetricType::Counter => match value.spec_as_u64() {
                    Some(v) => Ok(Recorded::CounterAdd(v)),
                    None => Err(MetricError::InvalidUnsignedValue(value.spec_value() as i64)),
                },
                MetricType::Gauge => match value.spec_as_i64() {
                    Some(v) => Ok(Recorded::GaugeAdd(v)),
                    None => Err(MetricError::InvalidSignedValue(value.spec_value() as u64)),
                },
                MetricType::Histogram => Err(
                    MetricError::InvalidIncrement { metric: name, ty: MetricType::Histogram },
                ),
            },
            self.registered().dom().contains(name@) ==> match self.instances()[name@].spec_inner() {
                MetricVal::Counter(c) => (value.spec_as_u64() matches Some(v) ==> has_taken(c.target(), Update::CounterAdd(time, v))),
                MetricVal::Gauge(g) => (value.spec_as_i64() matches Some(v) ==> has_taken(g.target(), Update::GaugeAdd(time, v))),
                MetricVal::Histogram(_) => true,
            },
    {
        let inst = match self.lookup(name) {
            None => return Ok(Recorded::NotRegistered),
            Some(inst) => inst,
        };
        match &inst.inner {
            MetricVal::Counter(counter) => match value.as_u64() {
                Some(v) => {
                    counter.deref().add(time, v);
                    Ok(Recorded::CounterAdd(v))
                },
                None => Err(MetricError::InvalidUnsignedValue(value.as_i64_unchecked())),
            },
            MetricVal::Gauge(gauge) => match value.as_i64() {
                Some(v) => {
                    gauge.deref().add(time, v);
                    Ok(Recorded::GaugeAdd(v))
                },
                None => Err(MetricError::InvalidSignedValue(value.as_u64_unchecked())),
            },
            MetricVal::Histogram(_) => Err(
                MetricError::InvalidIncrement { metric: name, ty: MetricType::Histogram },
            ),
        }
    }

    /// Subtracts `value` from the gauge under `name`; counters and
    /// histograms cannot be decremented, and a value above `i64::MAX` is an
    /// error; an unknown name does nothing.
    pub fn record_decrement<'a>(&self, name: &'a str, value: MetricValue, time: Instant) -> (r:
        Result<Recorded, MetricError<'a>>)
        ensures
            !self.registered().dom().contains(name@) ==> r == Ok::<Recorded, MetricError<'a>>(
                Recorded::NotRegistered,
            ),
            self.registered().dom().contains(name@) ==> r == match self.registered()[name@] {
                MetricType::Gauge => match value.spec_as_i64() {
                    Some(v) => Ok(Recorded::GaugeSub(v)),
                    None => Err(MetricError::InvalidSignedValue(value.spec_value() as u64)),
                },
                ty => Err(MetricError::InvalidDecrement { metric: name, ty }),
            },
            self.registered().dom().contains(name@) ==> (self.instances()[name@].spec_inner() matches MetricVal::Gauge(g)
                ==> (value.spec_as_i64() matches Some(v) ==> has_taken(g.target(), Update::GaugeSub(time, v)))),
    {
        let inst = match self.lookup(name) {
            None => return Ok(Recorded::NotRegistered),
            Some(inst) => inst,
        };
        match &inst.inner {
            MetricVal::Gauge(gauge) => match value.as_i64() {
                Some(v) => {
                    gauge.deref().sub(time, v);
                    Ok(Recorded::GaugeSub(v))
                },
                None => Err(MetricError::InvalidSignedValue(value.as_u64_unchecked())),
            },
            metric => Err(MetricError::InvalidDecrement { metric: name, ty: metric.ty() }),
        }
    }

    /// Sets the counter under `name` to `value`; any other kind of metric is
    /// an error. Nothing is done once the library is shut down, or for an
    /// unknown name.
    pub fn record_counter_value<'a>(&self, name: &'a str, value: u64, time: Instant) -> (r:
        Result<Recorded, MetricError<'a>>)
        ensures
            self.is_shutdown() ==> r == Ok::<Recorded, MetricError<'a>>(Recorded::Shutdown),
            !self.is_shutdown() && !self.registered().dom().contains(name@) ==> r == Ok::<
                Recorded,
                MetricError<'a>,
            >(Recorded::NotRegistered),
            !self.is_shutdown() && self.registered().dom().contains(name@) ==> r == match self.registered()[name@] {
                MetricType::Counter => Ok(Recorded::CounterStore(value)),
                found => Err(
                    MetricError::WrongType { metric: name, expected: MetricType::Counter, found },
                ),
            },
            !self.is_shutdown() && self.registered().dom().contains(name@) ==> (self.instances()[name@].spec_inner() matches MetricVal::Counter(c)
                ==> has_taken(c.target(), Update::CounterStore(time, value))),
    {
        if self.destroyed {
            return Ok(Recorded::Shutdown);
        }
        let inst = match self.lookup(name) {
            None => return Ok(Recorded::NotRegistered),
            Some(inst) => inst,
        };
        match &inst.inner {
            MetricVal::Counter(counter) => {
                counter.deref().store(time, value);
                Ok(Recorded::CounterStore(value))
            },
            metric => Err(
                MetricError::WrongType {
                    metric: name,
                    expected: MetricType::Counter,
                    found: metric.ty(),
                },
            ),
        }
    }

    /// Sets the gauge under `name` to `value`; any other kind of metric is
    /// an error. Nothing is done once the library is shut down, or for an
    /// unknown name.
    pub fn record_gauge_value<'a>(&self, name: &'a str, value: i64, time: Instant) -> (r:
        Result<Recorded, MetricError<'a>>)
        ensures
            self.is_shutdown() ==> r == Ok::<Recorded, MetricError<'a>>(Recorded::Shutdown),
            !self.is_shutdown() && !self.registered().dom().contains(name@) ==> r == Ok::<
                Recorded,
                MetricError<'a>,
            >(Recorded::NotRegistered),
            !self.is_shutdown() && self.registered().dom().contains(name@) ==> r == match self.registered()[name@] {
                MetricType::Gauge => Ok(Recorded::GaugeStore(value)),
                found => Err(
                    MetricError::WrongType { metric: name, expected: MetricType::Gauge, found },
                ),
            },
            !self.is_shutdown() && self.registered().dom().contains(name@) ==> (self.instances()[name@].spec_inner() matches MetricVal::Gauge(g)
                ==> has_taken(g.target(), Update::GaugeStore(time, value))),
    {
        if self.destroyed {
            return Ok(Recorded::Shutdown);
        }
        let inst = match self.lookup(name) {
            None => return Ok(Recorded::NotRegistered),
            Some(inst) => inst,
        };
        match &inst.inner {
            MetricVal::Gauge(gauge) => {
                gauge.deref().store(time, value);
                Ok(Recorded::GaugeStore(value))
            },
            metric => Err(
                MetricError::WrongType {
                    metric: name,
                    expected: MetricType::Gauge,
                    found: metric.ty(),
                },
            ),
        }
    }
}


/// Every registered name has an instance and every instance a registered
/// name; the instance under a name holds a metric of the kind registered
/// under it.
pub proof fn lemma_instances_match_registered(s: State)
    ensures
        s.instances().dom() == s.registered().dom(),
        forall|k: Seq<char>|
            #[trigger] s.registered().dom().contains(k) ==> s.instances()[k].spec_inner().spec_ty()
                == s.registered()[k],
{
    lemma_instances_follow_kinds(s.entries@);
}

/// Inserting a fresh key into a map and removing it again gives back the
/// map; in between, the key holds what was inserted.
proof fn lemma_insert_then_remove<V>(m: Map<Seq<char>, V>, name: Seq<char>, v: V)
    requires
        !m.dom().contains(name),
    ensures
        m.insert(name, v).remove(name) == m,
        m.insert(name, v).dom().contains(name) && m.insert(name, v)[name] == v,
{
    assert(m.insert(name, v).remove(name) =~= m);
}

/// Registering a metric under a name that no metric holds, and then
/// unregistering that name, gives back the registry as it was, by kinds
/// (`registered`) and by instances (`instances`); in between, the name
/// holds the metric registered, of its kind, with its metadata. `before`,
/// `between` and `after` are the registry before the registration, after
/// it returned `Ok`, and after the unregistration returned `Ok`, as those
/// calls' contracts give them.
pub proof fn lemma_register_then_unregister(
    before: State,
    between: State,
    after: State,
    name: Seq<char>,
    metric: MetricVal,
    metadata: Metadata,
)
    requires
        !before.registered().dom().contains(name),
        between.registered() == before.registered().insert(name, metric.spec_ty()),
        between.instances() == before.instances().insert(
            name,
            MetricInstance::spec_made(metric, metadata),
        ),
        after.registered() == between.registered().remove(name),
        after.instances() == between.instances().remove(name),
    ensures
        after.registered() == before.registered(),
        after.instances() == before.instances(),
        between.registered().dom().contains(name) && between.registered()[name] == metric.spec_ty(),
        between.instances().dom().contains(name) && between.instances()[name].spec_inner() == metric
            && between.instances()[name].spec_metadata() == metadata,
{
    lemma_instances_match_registered(before);
    lemma_insert_then_remove(before.registered(), name, metric.spec_ty());
    lemma_insert_then_remove(before.instances(), name, MetricInstance::spec_made(metric, metadata));
    MetricInstance::lemma_made(metric, metadata);
}

} // verus!

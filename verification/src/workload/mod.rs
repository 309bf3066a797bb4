pub mod buf;
pub mod cache;
pub mod client;
pub mod distribution;
pub mod fieldgen;
pub mod key_index;
pub mod keys;
pub mod keyspace;
pub mod leaderboard;
pub mod oltp;
pub mod publisher;
pub mod ratelimit;
pub mod rng;
pub mod store;
pub mod topics;

use crate::config::workload::{Ratelimit as RatelimitConfig, Workload};
use crate::workload::cache::{weights_accepted, CacheWorkload};
use crate::workload::client::ClientRequest;
use crate::workload::leaderboard::{LeaderboardRequest, LeaderboardsWorkload};
use crate::workload::oltp::{generate_oltp_request, table_name, Oltp, OltpRequest};
use crate::workload::rng::{
    weighted_choice_len, weighted_choice_new, weighted_choice_sample, weighted_choice_weights, WeightedChoice,
};
use crate::workload::store::{StoreClientRequest, StoreWorkload};
use crate::workload::publisher::PublisherWorkItem;
use crate::workload::topics::{message_header, TopicsWorkload};
use rand_xoshiro::Xoshiro512PlusPlus;
use vstd::prelude::*;

verus! {

/// An item of work for a client: a request with its sequence number, or an
/// order to reconnect.
#[derive(Clone, Debug, PartialEq)]
pub enum ClientWorkItemKind<T> {
    Reconnect,
    Request { request: T, sequence: u64 },
}

/// One part of the workload, drawn by weight.
#[derive(Clone)]
pub enum Component {
    Keyspace(CacheWorkload),
    Topics(TopicsWorkload),
    Store(StoreWorkload),
    Oltp(Oltp),
    Leaderboards(LeaderboardsWorkload),
}

/// What one round of the generator makes, for the channel of its kind.
#[derive(Clone, Debug, PartialEq)]
pub enum GeneratedItem {
    Client(ClientWorkItemKind<ClientRequest>),
    Publish(PublisherWorkItem),
    Store(ClientWorkItemKind<StoreClientRequest>),
    Oltp(ClientWorkItemKind<OltpRequest>),
    Leaderboard(ClientWorkItemKind<LeaderboardRequest>),
}

/// Why a generator could not be built.
#[derive(Clone, Copy, Debug, PartialEq, Eq, Structural)]
pub enum GeneratorError {
    /// The configuration names no workload component.
    NoComponents,
    /// The component weights were refused by the weighted choice.
    InvalidWeights,
}

impl Component {
    /// The settings a component generates with allow it: a message is long
    /// enough for its header and the random part's offset, and the ranges
    /// of row ids and tables are not empty.
    pub open spec fn generable(&self) -> bool {
        match self {
            Component::Topics(w) => w.message_len >= 32 && w.message_random_bytes + 32 <= usize::MAX,
            Component::Oltp(o) => o.keys >= 1 && o.tables >= 1,
            _ => true,
        }
    }

    /// A component can generate: its workload is well formed, and its
    /// settings allow it.
    pub open spec fn wf(&self) -> bool {
        &&& match self {
            Component::Keyspace(w) => w.wf(),
            Component::Topics(w) => w.wf(),
            Component::Store(w) => w.wf(),
            Component::Oltp(o) => true,
            Component::Leaderboards(w) => w.wf(),
        }
        &&& self.generable()
    }

    /// The sequence number can be handed to the component: the values of a
    /// hash write are numbered from it on, one per field.
    pub open spec fn takes_sequence(&self, sequence: u64) -> bool {
        match self {
            Component::Keyspace(w) => sequence + w.pools.inner_keys@.len() <= u64::MAX,
            _ => true,
        }
    }

    /// Whether the component's settings allow it to generate.
    pub fn can_generate(&self) -> (r: bool)
        ensures
            r == self.generable(),
    {
        match self {
            Component::Topics(w) => w.message_len >= 32 && w.message_random_bytes <= usize::MAX - 32,
            Component::Oltp(o) => o.keys >= 1 && o.tables >= 1,
            _ => true,
        }
    }

    /// What the component makes with the sequence number `sequence`: the
    /// request or message its own generator makes.
    pub open spec fn generates(&self, item: GeneratedItem, sequence: u64) -> bool {
        match self {
            Component::Keyspace(w) => item matches GeneratedItem::Client(
                ClientWorkItemKind::Request { request, sequence: s },
            ) && s == sequence && exists|i: int|
                0 <= i < w.commands@.len() && (#[trigger] w.commands@[i]).weight > 0
                    && w.context().request_ok(w.commands@[i], request, sequence),
            Component::Topics(w) => item matches GeneratedItem::Publish(
                PublisherWorkItem::Publish { topic, key, message },
            ) && {
                &&& exists|i: int| 0 <= i < w.topics@.len() && topic@ == (#[trigger] w.topics@[i])@
                &&& message@.len() == w.message_len
                &&& message@.subrange(0, 8) == message_header()
                &&& forall|i: int| 8 <= i < 32 ==> message@[i] == 0
                &&& forall|i: int| w.random_end() <= i < w.message_len ==> message@[i] == 0
                &&& (key is None <==> w.key_len == 0)
                &&& key matches Some(k) ==> k@.len() == w.key_len
            },
            Component::Store(w) => item matches GeneratedItem::Store(
                ClientWorkItemKind::Request { request, sequence: s },
            ) && s == sequence && exists|i: int|
                0 <= i < w.commands@.len() && (#[trigger] w.commands@[i]).weight > 0
                    && w.request_ok(w.commands@[i], request, sequence),
            Component::Oltp(o) => item matches GeneratedItem::Oltp(
                ClientWorkItemKind::Request { request: OltpRequest::PointSelect(p), sequence: s },
            ) && {
                &&& s == sequence
                &&& 1 <= p.id <= o.keys
                &&& exists|t: int| 1 <= t <= o.tables && p.table@ == #[trigger] table_name(t)
            },
            Component::Leaderboards(w) => item matches GeneratedItem::Leaderboard(
                ClientWorkItemKind::Request { request, sequence: s },
            ) && s == sequence && exists|i: int|
                0 <= i < w.commands@.len() && (#[trigger] w.commands@[i]).spec_weight() > 0
                    && w.request_ok(w.commands@[i], request),
        }
    }

    /// Generates the component's request or message with the sequence
    /// number `sequence`.
    pub fn generate(&self, rng: &mut Xoshiro512PlusPlus, sequence: u64) -> (r: GeneratedItem)
        requires
            self.wf(),
            self.takes_sequence(sequence),
        ensures
            self.generates(r, sequence),
    {
        match self {
            Component::Keyspace(w) => GeneratedItem::Client(w.generate_request(rng, sequence)),
            Component::Topics(w) => GeneratedItem::Publish(w.generate_pubsub(rng)),
            Component::Store(w) => GeneratedItem::Store(w.generate_request(rng, sequence)),
            Component::Oltp(o) => GeneratedItem::Oltp(generate_oltp_request(o, rng, sequence)),
            Component::Leaderboards(w) => GeneratedItem::Leaderboard(w.generate_request(rng, sequence)),
        }
    }
}

/// The workload generator: its components, the weighted choice among
/// them, and the ratelimiter the workload runs under, if any.
#[derive(Clone)]
pub struct Generator {
    components: Vec<Component>,
    component_dist: WeightedChoice,
    ratelimiter: Option<RatelimiterParams>,
}

/// The weights of weighted components, in order.
pub open spec fn component_weights(parts: Seq<(Component, usize)>) -> Seq<usize> {
    parts.map_values(|p: (Component, usize)| p.1)
}

/// The components of weighted components, in order.
pub open spec fn component_list(parts: Seq<(Component, usize)>) -> Seq<Component> {
    parts.map_values(|p: (Component, usize)| p.0)
}

impl Generator {
    pub closed spec fn spec_components(&self) -> Seq<Component> {
        self.components@
    }

    /// The weights the components are drawn with, in order.
    pub closed spec fn spec_weights(&self) -> Seq<usize> {
        weighted_choice_weights(self.component_dist)
    }

    /// The ratelimiter the workload runs under, if any.
    pub closed spec fn spec_ratelimiter(&self) -> Option<RatelimiterParams> {
        self.ratelimiter
    }

    pub closed spec fn wf(&self) -> bool {
        &&& weighted_choice_len(self.component_dist) == self.components@.len()
        &&& forall|i: int| 0 <= i < self.components@.len() ==> (#[trigger] self.components@[i]).wf()
    }

    /// Builds the generator from the weighted components, in order, with
    /// no ratelimiter: refused when there are none, or when the weighted
    /// choice refuses their weights.
    pub fn new(parts: Vec<(Component, usize)>) -> (r: Result<Self, GeneratorError>)
        requires
            forall|i: int| 0 <= i < parts@.len() ==> (#[trigger] parts@[i]).0.wf(),
        ensures
            r matches Ok(g) ==> g.wf() && g.spec_components() == component_list(parts@)
                && g.spec_weights() == component_weights(parts@) && g.spec_ratelimiter() is None,
            r == Err::<Self, GeneratorError>(GeneratorError::NoComponents) <==> parts@.len() == 0,
            r == Err::<Self, GeneratorError>(GeneratorError::InvalidWeights) <==> parts@.len() > 0
                && !weights_accepted(component_weights(parts@)),
    {
        if parts.len() == 0 {
            return Err(GeneratorError::NoComponents);
        }
        let ghost all = parts@;
        let mut parts = parts;
        let mut components: Vec<Component> = Vec::new();
        let mut weights: Vec<usize> = Vec::new();
        while parts.len() > 0
            invariant
                components@.len() + parts@.len() == all.len(),
                weights@.len() == components@.len(),
                parts@ == all.subrange(components@.len() as int, all.len() as int),
                forall|j: int| 0 <= j < components@.len() ==> #[trigger] components@[j] == all[j].0,
                forall|j: int| 0 <= j < weights@.len() ==> #[trigger] weights@[j] == all[j].1,
            decreases parts@.len(),
        {
            let (c, w) = parts.remove(0);
            components.push(c);
            weights.push(w);
        }
        assert(weights@ =~= component_weights(all));
        assert(components@ =~= component_list(all));
        match weighted_choice_new(weights) {
            Some(component_dist) => {
                let g = Generator { components, component_dist, ratelimiter: None };
                assert forall|i: int| 0 <= i < g.components@.len() implies (#[trigger] g.components@[i]).wf() by {
                    assert(g.components@[i] == all[i].0);
                }
                Ok(g)
            },
            None => Err(GeneratorError::InvalidWeights),
        }
    }

    /// The ratelimiter the workload runs under, if any.
    pub fn ratelimiter(&self) -> (r: Option<RatelimiterParams>)
        ensures
            r == self.spec_ratelimiter(),
    {
        self.ratelimiter
    }

    /// The components, in order.
    pub fn components(&self) -> (r: &Vec<Component>)
        ensures
            r@ == self.spec_components(),
    {
        &self.components
    }

    /// Draws a component by weight (never one of weight zero) and generates
    /// its request or message with the sequence number `sequence`.
    pub fn generate(&self, rng: &mut Xoshiro512PlusPlus, sequence: u64) -> (r: GeneratedItem)
        requires
            self.wf(),
            forall|i: int| 0 <= i < self.spec_components().len() ==> (#[trigger] self.spec_components()[i]).takes_sequence(sequence),
        ensures
            exists|i: int|
                0 <= i < self.spec_components().len() && self.spec_weights()[i] > 0
                    && (#[trigger] self.spec_components()[i]).generates(r, sequence),
    {
        let i = weighted_choice_sample(&self.component_dist, rng);
        let c = &self.components[i];
        assert(self.components@[i as int].wf());
        assert(self.spec_components()[i as int].takes_sequence(sequence));
        let r = c.generate(rng, sequence);
        assert(self.spec_components()[i as int].generates(r, sequence));
        r
    }
}

/// The keyspace components of a workload, with the weights the
/// configuration gives them.
pub open spec fn keyspace_parts(w: Workload, ks: Seq<CacheWorkload>) -> Seq<(Component, usize)> {
    Seq::new(ks.len(), |i: int| (Component::Keyspace(ks[i]), w.keyspace@[i].weight))
}

/// The topics components of a workload, with their weights.
pub open spec fn topics_parts(w: Workload, ts: Seq<TopicsWorkload>) -> Seq<(Component, usize)> {
    Seq::new(ts.len(), |i: int| (Component::Topics(ts[i]), w.topics@[i].weight))
}

/// The store components of a workload, with their weights.
pub open spec fn store_parts(w: Workload, ss: Seq<StoreWorkload>) -> Seq<(Component, usize)> {
    Seq::new(ss.len(), |i: int| (Component::Store(ss[i]), w.stores@[i].weight))
}

/// The OLTP component of a workload, if it has one, with its weight.
pub open spec fn oltp_parts(w: Workload) -> Seq<(Component, usize)> {
    match w.oltp {
        Some(o) => seq![(Component::Oltp(Oltp { tables: o.tables, keys: o.keys }), o.weight)],
        None => Seq::empty(),
    }
}

/// The leaderboard components of a workload, with their weights.
pub open spec fn leaderboard_parts(w: Workload, ls: Seq<LeaderboardsWorkload>) -> Seq<(Component, usize)> {
    Seq::new(ls.len(), |i: int| (Component::Leaderboards(ls[i]), w.leaderboards@[i].weight))
}

/// The weighted components of a workload, in order: keyspaces, topics,
/// stores, the OLTP section, leaderboards.
pub open spec fn workload_parts(
    w: Workload,
    ks: Seq<CacheWorkload>,
    ts: Seq<TopicsWorkload>,
    ss: Seq<StoreWorkload>,
    ls: Seq<LeaderboardsWorkload>,
) -> Seq<(Component, usize)> {
    keyspace_parts(w, ks) + topics_parts(w, ts) + store_parts(w, ss) + oltp_parts(w) + leaderboard_parts(w, ls)
}

impl Generator {
    /// Builds the generator of a workload from the components built for
    /// its keyspaces, topics, stores and leaderboards (one each, in the
    /// configuration's order) and its OLTP section: the components in that
    /// order, each with the weight of its section, and the ratelimiter of
    /// its ratelimit section (none for a starting rate of zero). Refused
    /// when there are no components, or when the weighted choice refuses
    /// the weights.
    pub fn from_workload(
        w: &Workload,
        keyspaces: Vec<CacheWorkload>,
        topics: Vec<TopicsWorkload>,
        stores: Vec<StoreWorkload>,
        leaderboards: Vec<LeaderboardsWorkload>,
    ) -> (r: Result<Self, GeneratorError>)
        requires
            keyspaces@.len() == w.keyspace@.len(),
            topics@.len() == w.topics@.len(),
            stores@.len() == w.stores@.len(),
            leaderboards@.len() == w.leaderboards@.len(),
            forall|i: int| 0 <= i < keyspaces@.len() ==> Component::Keyspace(#[trigger] keyspaces@[i]).wf(),
            forall|i: int| 0 <= i < topics@.len() ==> Component::Topics(#[trigger] topics@[i]).wf(),
            forall|i: int| 0 <= i < stores@.len() ==> Component::Store(#[trigger] stores@[i]).wf(),
            forall|i: int| 0 <= i < leaderboards@.len() ==> Component::Leaderboards(#[trigger] leaderboards@[i]).wf(),
            w.oltp matches Some(o) ==> o.keys >= 1 && o.tables >= 1,
        ensures
            ({
                let parts = workload_parts(*w, keyspaces@, topics@, stores@, leaderboards@);
                &&& r matches Ok(g) ==> g.wf() && g.spec_components() == component_list(parts)
                    && g.spec_weights() == component_weights(parts)
                    && g.spec_ratelimiter() == workload_ratelimiter_of(w.ratelimit)
                &&& r == Err::<Self, GeneratorError>(GeneratorError::NoComponents) <==> parts.len() == 0
                &&& r == Err::<Self, GeneratorError>(GeneratorError::InvalidWeights) <==> parts.len() > 0
                    && !weights_accepted(component_weights(parts))
            }),
    {
        let ghost all_ks = keyspaces@;
        let ghost all_ts = topics@;
        let ghost all_ss = stores@;
        let ghost all_ls = leaderboards@;
        let mut parts: Vec<(Component, usize)> = Vec::new();

        let bound: usize = w.keyspace.len();
        let mut ks = keyspaces;
        let mut i: usize = 0;
        while ks.len() > 0
            invariant
                i + ks@.len() == all_ks.len(),
                all_ks.len() == w.keyspace@.len(),
                all_ks.len() == bound,
                ks@ == all_ks.subrange(i as int, all_ks.len() as int),
                parts@ == keyspace_parts(*w, all_ks).take(i as int),
            decreases ks@.len(),
        {
            let k = ks.remove(0);
            parts.push((Component::Keyspace(k), w.keyspace[i].weight));
            proof {
                assert(parts@ =~= keyspace_parts(*w, all_ks).take(i + 1));
            }
            i = i + 1;
        }
        assert(parts@ =~= keyspace_parts(*w, all_ks));
        let ghost base = parts@;

        let bound: usize = w.topics.len();
        let mut ts = topics;
        let mut i: usize = 0;
        while ts.len() > 0
            invariant
                i + ts@.len() == all_ts.len(),
                all_ts.len() == w.topics@.len(),
                all_ts.len() == bound,
                ts@ == all_ts.subrange(i as int, all_ts.len() as int),
                parts@ == base + topics_parts(*w, all_ts).take(i as int),
            decreases ts@.len(),
        {
            let t = ts.remove(0);
            parts.push((Component::Topics(t), w.topics[i].weight));
            proof {
                assert(parts@ =~= base + topics_parts(*w, all_ts).take(i + 1));
            }
            i = i + 1;
        }
        assert(parts@ =~= base + topics_parts(*w, all_ts));
        let ghost base = parts@;

        let bound: usize = w.stores.len();
        let mut ss = stores;
        let mut i: usize = 0;
        while ss.len() > 0
            invariant
                i + ss@.len() == all_ss.len(),
                all_ss.len() == w.stores@.len(),
                all_ss.len() == bound,
                ss@ == all_ss.subrange(i as int, all_ss.len() as int),
                parts@ == base + store_parts(*w, all_ss).take(i as int),
            decreases ss@.len(),
        {
            let st = ss.remove(0);
            parts.push((Component::Store(st), w.stores[i].weight));
            proof {
                assert(parts@ =~= base + store_parts(*w, all_ss).take(i + 1));
            }
            i = i + 1;
        }
        assert(parts@ =~= base + store_parts(*w, all_ss));

        match w.oltp() {
            Some(o) => {
                parts.push((Component::Oltp(Oltp::new(o)), o.weight()));
            },
            None => {},
        }
        assert(parts@ =~= base + store_parts(*w, all_ss) + oltp_parts(*w));
        let ghost base = parts@;

        let bound: usize = w.leaderboards.len();
        let mut ls = leaderboards;
        let mut i: usize = 0;
        while ls.len() > 0
            invariant
                i + ls@.len() == all_ls.len(),
                all_ls.len() == w.leaderboards@.len(),
                all_ls.len() == bound,
                ls@ == all_ls.subrange(i as int, all_ls.len() as int),
                parts@ == base + leaderboard_parts(*w, all_ls).take(i as int),
            decreases ls@.len(),
        {
            let l = ls.remove(0);
            parts.push((Component::Leaderboards(l), w.leaderboards[i].weight));
            proof {
                assert(parts@ =~= base + leaderboard_parts(*w, all_ls).take(i + 1));
            }
            i = i + 1;
        }
        assert(parts@ =~= workload_parts(*w, all_ks, all_ts, all_ss, all_ls));
        proof {
            let parts_v = parts@;
            assert forall|j: int| 0 <= j < parts_v.len() implies (#[trigger] parts_v[j]).0.wf() by {
                let nk = all_ks.len() as int;
                let nt = all_ts.len() as int;
                let ns = all_ss.len() as int;
                let no = oltp_parts(*w).len() as int;
                if j < nk {
                    assert(parts_v[j] == keyspace_parts(*w, all_ks)[j]);
                    assert(Component::Keyspace(all_ks[j]).wf());
                } else if j < nk + nt {
                    assert(parts_v[j] == topics_parts(*w, all_ts)[j - nk]);
                    assert(Component::Topics(all_ts[j - nk]).wf());
                } else if j < nk + nt + ns {
                    assert(parts_v[j] == store_parts(*w, all_ss)[j - nk - nt]);
                    assert(Component::Store(all_ss[j - nk - nt]).wf());
                } else if j < nk + nt + ns + no {
                    assert(parts_v[j] == oltp_parts(*w)[j - nk - nt - ns]);
                } else {
                    assert(parts_v[j] == leaderboard_parts(*w, all_ls)[j - nk - nt - ns - no]);
                    assert(Component::Leaderboards(all_ls[j - nk - nt - ns - no]).wf());
                }
            }
        }
        match Generator::new(parts) {
            Ok(g) => Ok(Generator { ratelimiter: workload_ratelimiter(w.ratelimit()), ..g }),
            Err(e) => Err(e),
        }
    }
}

/// The parameters of a token-bucket ratelimiter for a rate per second:
/// `amount` tokens, the rate in millions rounded up, are added every
/// `interval_ns` nanoseconds, and the bucket holds 64 refills.
#[derive(Clone, Copy, Debug, PartialEq, Eq, Structural)]
pub struct RatelimiterParams {
    pub amount: u64,
    pub interval_ns: u64,
    pub max_tokens: u64,
}

/// The ratelimiter parameters of a rate: `amount` is `rate / 10^6` rounded
/// up, the interval `10^9 / (rate / amount)` nanoseconds (each division
/// rounding down), and the bucket `64 * amount` tokens.
pub open spec fn spec_ratelimiter_params(rate: u64) -> RatelimiterParams {
    let amount = ((rate + 999_999) / 1_000_000) as u64;
    RatelimiterParams {
        amount,
        interval_ns: (1_000_000_000u64 / (rate / amount)) as u64,
        max_tokens: (amount * 64) as u64,
    }
}

/// The ratelimiter a ratelimit section asks for: none for a starting rate
/// of zero, else the parameters of the starting rate.
pub open spec fn workload_ratelimiter_of(c: RatelimitConfig) -> Option<RatelimiterParams> {
    if c.spec_start() == 0 {
        None
    } else {
        Some(spec_ratelimiter_params(c.spec_start()))
    }
}

/// The ratelimiter parameters of a rate (see `spec_ratelimiter_params`).
pub fn ratelimiter_params(rate: u64) -> (r: RatelimiterParams)
    requires
        rate > 0,
    ensures
        r == spec_ratelimiter_params(rate),
        r.amount == (rate + 999_999) / 1_000_000,
        r.amount >= 1,
        rate / r.amount >= 1,
        r.interval_ns == 1_000_000_000u64 / (rate / r.amount),
        r.max_tokens == r.amount * 64,
{
    let amount: u64 = rate / 1_000_000 + if rate % 1_000_000 == 0 { 0 } else { 1 };
    assert(amount == (rate + 999_999) / 1_000_000) by (nonlinear_arith)
        requires
            amount == rate / 1_000_000 + if rate % 1_000_000 == 0 { 0int } else { 1int },
    ;
    assert(amount <= rate) by (nonlinear_arith)
        requires
            amount == (rate + 999_999) / 1_000_000,
            rate > 0,
    ;
    assert(rate / amount >= 1) by (nonlinear_arith)
        requires
            1 <= amount <= rate,
    ;
    assert(amount * 64 <= u64::MAX) by (nonlinear_arith)
        requires
            amount == (rate + 999_999) / 1_000_000,
    ;
    let per: u64 = rate / amount;
    RatelimiterParams { amount, interval_ns: 1_000_000_000 / per, max_tokens: amount * 64 }
}

/// The ratelimiter a workload runs under: none when the configured starting
/// rate is zero (unlimited), else the parameters for the starting rate.
pub fn workload_ratelimiter(c: &RatelimitConfig) -> (r: Option<RatelimiterParams>)
    ensures
        r == workload_ratelimiter_of(*c),
        r is Some <==> c.spec_start() != 0,
        r matches Some(p) ==> {
            &&& p.amount == (c.spec_start() + 999_999) / 1_000_000
            &&& p.amount >= 1
            &&& p.interval_ns == 1_000_000_000u64 / (c.spec_start() / p.amount)
            &&& p.max_tokens == p.amount * 64
        },
{
    match c.start() {
        Some(rate) => Some(ratelimiter_params(rate)),
        None => None,
    }
}

} // verus!

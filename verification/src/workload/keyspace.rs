use crate::config::workload as config;
use crate::config::workload::ValueKind;
use crate::config::workload::cache::{command_error, Command};
use crate::workload::cache::{
    cardinalities_fit, inner_count, inner_len, keyspace_keys_fit, value_ok, weights_accepted, weights_of,
    KeyPools, RequestContext, Values, WorkloadError,
};
use crate::workload::client::ClientRequest;
use crate::workload::keys::{alphanumeric_keys, views};
use crate::workload::rng::{
    weighted_choice_len, weighted_choice_new, weighted_choice_sample, weighted_choice_weights, WeightedChoice,
};
use crate::workload::ClientWorkItemKind;
use bytes::Bytes;
use rand_xoshiro::Xoshiro512PlusPlus;
use vstd::prelude::*;
use zipf::ZipfDistribution;

verus! {

/// A keyspace: a set of keys, inner keys, and the commands used within it.
/// Unlike a `CacheWorkload`, its byte values are fresh random bytes.
#[derive(Clone)]
pub struct Keyspace {
    pools: KeyPools,
    commands: Vec<Command>,
    command_dist: WeightedChoice,
    vlen: usize,
    vkind: ValueKind,
    ttl: Option<u64>,
    values: Values,
}

impl Keyspace {
    pub closed spec fn wf(&self) -> bool {
        &&& self.pools.wf()
        &&& weighted_choice_weights(self.command_dist) == weights_of(self.commands@)
        &&& self.values is Fresh
        &&& forall|i: int|
            0 <= i < self.commands@.len() ==> (#[trigger] self.commands@[i]).verb.spec_needs_distinct()
                ==> self.commands@[i].cardinality <= self.pools.inner_keys@.len()
    }

    pub closed spec fn spec_pools(&self) -> KeyPools {
        self.pools
    }

    pub closed spec fn spec_commands(&self) -> Seq<Command> {
        self.commands@
    }

    /// The weights the commands are drawn with, in order.
    pub closed spec fn spec_command_weights(&self) -> Seq<usize> {
        weighted_choice_weights(self.command_dist)
    }

    pub closed spec fn context(&self) -> RequestContext<'_> {
        RequestContext {
            pools: &self.pools,
            values: &self.values,
            vkind: self.vkind,
            vlen: self.vlen,
            ttl: self.ttl,
        }
    }

    /// Builds the keyspace of a validated keyspace configuration from the
    /// initial seed (see `KeyPools::new`).
    pub fn new(initial_seed: [u8; 64], k: &config::cache::Keyspace, key_zipf: Option<ZipfDistribution>) -> (r:
        Result<Self, WorkloadError>)
        requires
            forall|i: int| 0 <= i < k.commands@.len() ==> command_error(*k, #[trigger] k.commands@[i]) is None,
            cardinalities_fit(*k),
            k.key_distribution == config::Distribution::Zipf ==> key_zipf is Some,
            k.inner_keys_nkeys != Some(0usize),
        ensures
            r matches Ok(w) ==> {
                &&& w.wf()
                &&& w.spec_commands() == k.commands@
                &&& w.context().vkind == k.spec_vkind()
                &&& w.context().vlen == (match k.vlen {
                    Some(v) => v,
                    None => 0usize,
                })
                &&& w.context().ttl == k.ttl
                &&& w.spec_pools().keys@.len() == (if k.nkeys == 0 { 1 } else { k.nkeys })
                &&& w.spec_pools().key_dist.is_uniform() == (k.key_distribution != config::Distribution::Zipf)
                &&& w.spec_pools().inner_key_dist.is_uniform()
                &&& alphanumeric_keys(views(w.spec_pools().keys@), k.klen as nat)
                &&& w.spec_pools().inner_keys@.len() == inner_count(*k)
                &&& alphanumeric_keys(views(w.spec_pools().inner_keys@), inner_len(*k))
                &&& w.spec_command_weights() == weights_of(k.commands@)
            },
            !weights_accepted(weights_of(k.commands@)) ==> r is Err,
            weights_accepted(weights_of(k.commands@)) && keyspace_keys_fit(*k) ==> r is Ok,
            r matches Err(e) ==> (e == WorkloadError::InvalidWeights ==> !weights_accepted(weights_of(k.commands@))),
            r matches Err(e) ==> (weights_accepted(weights_of(k.commands@)) ==> e == WorkloadError::NotEnoughDistinctKeys),
    {
        let (pools, _rng) = match KeyPools::new(initial_seed, k, key_zipf) {
            Ok(x) => x,
            Err(e) => return Err(e),
        };
        let commands = k.commands.clone();
        assert(commands@ =~= k.commands@);
        let mut weights: Vec<usize> = Vec::new();
        let mut i: usize = 0;
        while i < commands.len()
            invariant
                i <= commands@.len(),
                weights@.len() == i,
                forall|j: int| 0 <= j < i ==> #[trigger] weights@[j] == commands@[j].weight,
            decreases commands@.len() - i,
        {
            weights.push(commands[i].weight);
            i = i + 1;
        }
        assert(weights@ =~= weights_of(k.commands@));
        let command_dist = match weighted_choice_new(weights) {
            Some(d) => d,
            None => return Err(WorkloadError::InvalidWeights),
        };
        let vlen: usize = match k.vlen {
            Some(v) => v,
            None => 0,
        };
        let w = Keyspace {
            pools,
            commands,
            command_dist,
            vlen,
            vkind: k.vkind(),
            ttl: k.ttl,
            values: Values::Fresh,
        };
        proof {
            assert forall|i: int|
                0 <= i < w.commands@.len() && (#[trigger] w.commands@[i]).verb.spec_needs_distinct()
                implies w.commands@[i].cardinality <= w.pools.inner_keys@.len() by {
                assert(w.commands@[i] == k.commands@[i]);
            }
        }
        Ok(w)
    }

    /// Draws a key.
    pub fn key(&self, rng: &mut Xoshiro512PlusPlus) -> (r: Vec<u8>)
        requires
            self.wf(),
        ensures
            self.spec_pools().has_key(r@),
    {
        self.pools.sample(rng)
    }

    /// Draws an inner key.
    pub fn inner_key(&self, rng: &mut Xoshiro512PlusPlus) -> (r: Vec<u8>)
        requires
            self.wf(),
        ensures
            self.spec_pools().has_inner(r@),
    {
        self.pools.sample_inner(rng)
    }

    /// A value: the decimal text of a random `i64`, or `vlen` random bytes.
    pub fn gen_value(&self, rng: &mut Xoshiro512PlusPlus) -> (r: Bytes)
        requires
            self.wf(),
        ensures
            value_ok(Values::Fresh, self.context().vkind, self.context().vlen, r, 0),
    {
        let ctx = RequestContext {
            pools: &self.pools,
            values: &self.values,
            vkind: self.vkind,
            vlen: self.vlen,
            ttl: self.ttl,
        };
        ctx.gen_value(0, rng)
    }

    /// The time to live of written items, in seconds.
    pub fn ttl(&self) -> (r: Option<u64>)
        ensures
            r == self.context().ttl,
    {
        self.ttl
    }

    /// Draws a command by weight and generates its request, numbered
    /// `sequence`.
    pub fn generate_request(&self, rng: &mut Xoshiro512PlusPlus, sequence: u64) -> (r: ClientWorkItemKind<ClientRequest>)
        requires
            self.wf(),
            sequence + self.spec_pools().inner_keys@.len() <= u64::MAX,
        ensures
            r matches ClientWorkItemKind::Request { request, sequence: s } && s == sequence
                && exists|i: int|
                0 <= i < self.spec_commands().len() && (#[trigger] self.spec_commands()[i]).weight
                    > 0 && self.context().request_ok(self.spec_commands()[i], request, sequence),
    {
        let i = weighted_choice_sample(&self.command_dist, rng);
        let c = self.commands[i];
        assert(weights_of(self.commands@)[i as int] == c.weight);
        let ctx = RequestContext {
            pools: &self.pools,
            values: &self.values,
            vkind: self.vkind,
            vlen: self.vlen,
            ttl: self.ttl,
        };
        let request = ctx.generate(c, rng, sequence);
        assert(self.context().request_ok(self.spec_commands()[i as int], request, sequence));
        ClientWorkItemKind::Request { request, sequence }
    }
}

} // verus!

use crate::config::workload as config;
use crate::config::workload::ValueKind;
use crate::config::workload::store::{StoreCommand, StoreVerb};
use crate::workload::buf::{
    ascii_chars, ascii_string, bytes_from_vec, bytes_len, bytes_slice, bytes_view, decimal_text,
    i64_decimal,
};
use crate::workload::cache::{weights_accepted, WorkloadError, VALUE_BUFFER_LEN};
use crate::workload::distribution::{is_zipf, Distribution};
use crate::workload::keys::{all_alphanumeric, alphanumeric_keys, distinct_seqs, generate_unique_keys, views};
use crate::workload::rng::{
    is_alphanumeric, rng_bytes, rng_from_seed, rng_i64, rng_seed, rng_shuffle_bytes,
    weighted_choice_len, weighted_choice_new, weighted_choice_sample, weighted_choice_weights, WeightedChoice,
};
use crate::workload::ClientWorkItemKind;
use bytes::Bytes;
use rand_xoshiro::Xoshiro512PlusPlus;
use vstd::prelude::*;
use zipf::ZipfDistribution;

verus! {

/// A ping of the store.
#[derive(Clone, Debug, PartialEq)]
pub struct Ping {}

/// A read of one object.
#[derive(Clone, Debug, PartialEq)]
pub struct Get {
    pub key: String,
}

/// A removal of one object.
#[derive(Clone, Debug, PartialEq)]
pub struct Delete {
    pub key: String,
}

/// A write of one object; store keys are always strings.
#[derive(Clone, Debug, PartialEq)]
pub struct Put {
    pub key: String,
    pub value: Bytes,
}

/// A request to an object store.
#[derive(Clone, Debug, PartialEq)]
pub enum StoreClientRequest {
    Ping(Ping),
    Get(Get),
    Delete(Delete),
    Put(Put),
    Reconnect,
}

pub open spec fn store_weights(commands: Seq<StoreCommand>) -> Seq<usize> {
    commands.map_values(|c: StoreCommand| c.weight)
}

/// A store workload: keys, weighted commands, and byte values cut from a
/// shared 100 MiB buffer.
#[derive(Clone)]
pub struct StoreWorkload {
    pub keys: Vec<Vec<u8>>,
    pub key_dist: Distribution,
    pub commands: Vec<StoreCommand>,
    pub command_dist: WeightedChoice,
    pub vlen: usize,
    pub vkind: ValueKind,
    pub vbuf: Bytes,
}

impl StoreWorkload {
    pub open spec fn wf(&self) -> bool {
        &&& self.key_dist.wf()
        &&& self.key_dist.spec_len() == self.keys@.len()
        &&& distinct_seqs(views(self.keys@))
        &&& forall|i: int| 0 <= i < self.keys@.len() ==> all_alphanumeric(#[trigger] self.keys@[i]@)
        &&& weighted_choice_weights(self.command_dist) == store_weights(self.commands@)
        &&& self.vlen < bytes_view(self.vbuf).len()
    }

    /// The keys as the strings a request carries.
    pub open spec fn has_key_string(&self, s: Seq<char>) -> bool {
        exists|i: int| 0 <= i < self.keys@.len() && s == ascii_chars(#[trigger] self.keys@[i]@)
    }

    /// What a value of a write at `slot` may be.
    pub open spec fn value_ok(&self, v: Bytes, slot: usize) -> bool {
        match self.vkind {
            ValueKind::I64 => exists|x: i64| bytes_view(v) == decimal_text(x as int),
            ValueKind::Bytes => {
                let start = slot as int % (bytes_view(self.vbuf).len() - self.vlen);
                bytes_view(v) == bytes_view(self.vbuf).subrange(start, start + self.vlen)
            },
        }
    }

    /// Builds the workload of a store from the initial seed: the key
    /// generator's seed is drawn from a generator seeded with it (a second
    /// seed is drawn and left unused), the keys are distinct alphanumeric
    /// keys, and the value buffer is 100 MiB of zeros whose first
    /// `value_random_bytes` bytes are drawn from the key generator,
    /// shuffled with it.
    pub fn new(
        initial_seed: [u8; 64],
        store: &config::store::Store,
        key_zipf: Option<ZipfDistribution>,
        value_random_bytes: usize,
    ) -> (r: Result<Self, WorkloadError>)
        requires
            store.key_distribution == config::Distribution::Zipf ==> key_zipf is Some,
            !store.lacks_value_length(),
            value_random_bytes <= VALUE_BUFFER_LEN,
            (match store.vlen {
                Some(v) => v,
                None => 0usize,
            }) < VALUE_BUFFER_LEN,
        ensures
            r matches Ok(w) ==> {
                &&& w.wf()
                &&& w.key_dist.is_uniform() == (store.key_distribution != config::Distribution::Zipf)
                &&& w.keys@.len() == (if store.nkeys == 0 { 1 } else { store.nkeys })
                &&& alphanumeric_keys(views(w.keys@), store.klen as nat)
                &&& w.commands@ == store.commands@
                &&& w.vkind == store.spec_vkind()
                &&& w.vlen == (match store.vlen {
                    Some(v) => v,
                    None => 0usize,
                })
                &&& bytes_view(w.vbuf).len() == VALUE_BUFFER_LEN
                &&& weighted_choice_weights(w.command_dist) == store_weights(store.commands@)
            },
            !weights_accepted(store_weights(store.commands@)) ==> r is Err,
            weights_accepted(store_weights(store.commands@)) && (if store.nkeys == 0 {
                1
            } else {
                store.nkeys as int
            }) <= vstd::arithmetic::power::pow(62, store.klen as nat) ==> r is Ok,
            r matches Err(e) ==> (e == WorkloadError::InvalidWeights ==> !weights_accepted(store_weights(store.commands@))),
            r matches Err(e) ==> (weights_accepted(store_weights(store.commands@)) ==> e == WorkloadError::NotEnoughDistinctKeys),
    {
        let nkeys: usize = if store.nkeys == 0 { 1 } else { store.nkeys };
        let mut rng = rng_from_seed(initial_seed);
        let key_seed = rng_seed(&mut rng);
        let _unused_seed = rng_seed(&mut rng);
        let mut rng = rng_from_seed(key_seed);
        let keys = match generate_unique_keys(&mut rng, nkeys, store.klen) {
            Some(keys) => keys,
            None => return Err(WorkloadError::NotEnoughDistinctKeys),
        };
        let key_dist = if is_zipf(store.key_distribution) {
            match key_zipf {
                Some(z) => Distribution::zipf(z, nkeys),
                None => Distribution::uniform(nkeys),
            }
        } else {
            Distribution::uniform(nkeys)
        };
        let commands = store.commands.clone();
        assert(commands@ =~= store.commands@);
        let mut weights: Vec<usize> = Vec::new();
        let mut i: usize = 0;
        while i < commands.len()
            invariant
                i <= commands@.len(),
                weights@.len() == i,
                forall|j: int| 0 <= j < i ==> #[trigger] weights@[j] == commands@[j].weight,
            decreases commands@.len() - i,
        {
            weights.push(commands[i].weight);
            i = i + 1;
        }
        assert(weights@ =~= store_weights(store.commands@));

        let mut vbuf = rng_bytes(&mut rng, value_random_bytes);
        vbuf.resize(VALUE_BUFFER_LEN, 0u8);
        rng_shuffle_bytes(&mut rng, &mut vbuf);
        let vbuf = bytes_from_vec(vbuf);

        let command_dist = match weighted_choice_new(weights) {
            Some(d) => d,
            None => return Err(WorkloadError::InvalidWeights),
        };
        let vlen: usize = match store.vlen {
            Some(v) => v,
            None => 0,
        };
        proof {
            assert forall|i: int| 0 <= i < keys@.len() implies all_alphanumeric(#[trigger] keys@[i]@) by {
                assert(views(keys@)[i] == keys@[i]@);
            }
        }
        Ok(StoreWorkload { keys, key_dist, commands, command_dist, vlen, vkind: store.vkind(), vbuf })
    }

    /// Draws a key.
    pub fn sample(&self, rng: &mut Xoshiro512PlusPlus) -> (r: Vec<u8>)
        requires
            self.wf(),
        ensures
            views(self.keys@).contains(r@),
            all_alphanumeric(r@),
    {
        let index = self.key_dist.sample(rng);
        assert(views(self.keys@)[index as int] == self.keys@[index as int]@);
        let k = self.keys[index].clone();
        assert(k@ == self.keys@[index as int]@);
        k
    }

    /// Draws a key, as a string.
    pub fn sample_string(&self, rng: &mut Xoshiro512PlusPlus) -> (r: String)
        requires
            self.wf(),
        ensures
            self.has_key_string(r@),
    {
        let k = self.sample(rng);
        let ghost kv = k@;
        assert forall|i: int| 0 <= i < k@.len() implies #[trigger] k@[i] < 0x80 by {
            assert(is_alphanumeric(k@[i]));
        }
        let s = ascii_string(k);
        proof {
            let w = choose|w: int| 0 <= w < views(self.keys@).len() && views(self.keys@)[w] == kv;
            assert(self.keys@[w]@ == kv);
        }
        s
    }

    /// A value for a write with sequence number `sequence`.
    pub fn gen_value(&self, sequence: usize, rng: &mut Xoshiro512PlusPlus) -> (r: Bytes)
        requires
            self.wf(),
        ensures
            self.value_ok(r, sequence),
    {
        match self.vkind {
            ValueKind::I64 => {
                let x = rng_i64(rng);
                bytes_from_vec(i64_decimal(x))
            },
            ValueKind::Bytes => {
                let start: usize = sequence % (bytes_len(&self.vbuf) - self.vlen);
                bytes_slice(&self.vbuf, start, start + self.vlen)
            },
        }
    }

    /// What `generate_request` makes of command `c`.
    pub open spec fn request_ok(&self, c: StoreCommand, req: StoreClientRequest, sequence: u64) -> bool {
        match c.verb {
            StoreVerb::Put => req matches StoreClientRequest::Put(p) && self.has_key_string(p.key@)
                && self.value_ok(p.value, sequence as usize),
            StoreVerb::Get => req matches StoreClientRequest::Get(g) && self.has_key_string(g.key@),
            StoreVerb::Delete => req matches StoreClientRequest::Delete(d) && self.has_key_string(
                d.key@,
            ),
            StoreVerb::Ping => req matches StoreClientRequest::Ping(_),
        }
    }

    /// Draws a command by weight and generates its request, numbered
    /// `sequence`.
    pub fn generate_request(&self, rng: &mut Xoshiro512PlusPlus, sequence: u64) -> (r: ClientWorkItemKind<StoreClientRequest>)
        requires
            self.wf(),
        ensures
            r matches ClientWorkItemKind::Request { request, sequence: s } && s == sequence
                && exists|i: int|
                0 <= i < self.commands@.len() && (#[trigger] self.commands@[i]).weight > 0
                    && self.request_ok(self.commands@[i], request, sequence),
    {
        let i = weighted_choice_sample(&self.command_dist, rng);
        let command = self.commands[i];
        assert(store_weights(self.commands@)[i as int] == command.weight);
        let request = match command.verb {
            StoreVerb::Put => {
                let key = self.sample_string(rng);
                let value = self.gen_value(sequence as usize, rng);
                StoreClientRequest::Put(Put { key, value })
            },
            StoreVerb::Get => StoreClientRequest::Get(Get { key: self.sample_string(rng) }),
            StoreVerb::Delete => StoreClientRequest::Delete(Delete { key: self.sample_string(rng) }),
            StoreVerb::Ping => StoreClientRequest::Ping(Ping {  }),
        };
        assert(self.request_ok(self.commands@[i as int], request, sequence));
        ClientWorkItemKind::Request { request, sequence }
    }
}

} // verus!

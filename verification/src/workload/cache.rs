use crate::config::workload as config;
use crate::config::workload::ValueKind;
use crate::config::workload::cache::{command_error, Command, KeyspaceError, Verb};
use crate::workload::buf::{bytes_from_vec, bytes_len, bytes_slice, bytes_view, decimal_text, i64_decimal};
use crate::workload::client::{
    inner_key_count, inner_keys, request_truncate, Add, ClientRequest, Delete, Get, HashDelete, HashExists, HashGet, HashGetAll, HashIncrement,
    HashSet, ListFetch, ListLength, ListPopBack, ListPopFront, ListPushBack, ListPushFront,
    ListRemove, Ping, Replace, SetAdd, SetMembers, SetRemove, SetValue, SortedSetAdd,
    SortedSetIncrement, SortedSetRange, SortedSetRank, SortedSetRemove, SortedSetScore,
};
use crate::workload::distribution::{is_zipf, Distribution};
use crate::workload::keys::{
    alphanumeric_keys, bytes_eq, complete_in_pool_order, distinct_seqs, generate_unique_keys, sample_distinct_keys,
    sample_keys, views, MAX_DRAWS,
};
use crate::workload::rng::{
    rng_bytes, rng_from_seed, rng_i64, rng_seed, rng_shuffle_bytes, weighted_choice_len,
    weighted_choice_new, weighted_choice_sample, weighted_choice_weights, WeightedChoice,
};
use crate::workload::ClientWorkItemKind;
use bytes::Bytes;
use rand_xoshiro::Xoshiro512PlusPlus;
use vstd::prelude::*;
use zipf::ZipfDistribution;

verus! {

/// The size of the buffer that byte values are cut from: 100 MiB.
pub const VALUE_BUFFER_LEN: usize = 104857600usize;

/// Why a workload could not be built.
#[derive(Clone, Copy, Debug, PartialEq, Eq, Structural)]
pub enum WorkloadError {
    /// `MAX_DRAWS` draws did not give enough distinct keys.
    NotEnoughDistinctKeys,
    /// The command weights were refused by the weighted choice.
    InvalidWeights,
}

/// The keys of a keyspace and the inner keys (hash fields, list elements,
/// set members), each with the distribution they are drawn with.
#[derive(Clone)]
pub struct KeyPools {
    pub keys: Vec<Vec<u8>>,
    pub key_dist: Distribution,
    pub inner_keys: Vec<Vec<u8>>,
    pub inner_key_dist: Distribution,
}

/// The number of inner keys of a keyspace: one unless set.
pub open spec fn inner_count(k: config::cache::Keyspace) -> nat {
    match k.inner_keys_nkeys {
        Some(n) => n as nat,
        None => 1,
    }
}

/// The length of the inner keys of a keyspace: one unless set.
pub open spec fn inner_len(k: config::cache::Keyspace) -> nat {
    match k.inner_keys_klen {
        Some(n) => n as nat,
        None => 1,
    }
}

/// There are as many keys and inner keys of the asked lengths as the
/// keyspace asks for: no more keys than `62^klen`, no more inner keys than
/// `62^inner_len`.
pub open spec fn keyspace_keys_fit(k: config::cache::Keyspace) -> bool {
    &&& (if k.nkeys == 0 { 1 } else { k.nkeys as int }) <= vstd::arithmetic::power::pow(62, k.klen as nat)
    &&& inner_count(k) <= vstd::arithmetic::power::pow(62, inner_len(k))
}

impl KeyPools {
    pub open spec fn wf(&self) -> bool {
        &&& self.key_dist.wf()
        &&& self.key_dist.spec_len() == self.keys@.len()
        &&& self.inner_key_dist.wf()
        &&& self.inner_key_dist.spec_len() == self.inner_keys@.len()
        &&& distinct_seqs(views(self.keys@))
        &&& distinct_seqs(views(self.inner_keys@))
    }

    pub open spec fn has_key(&self, k: Seq<u8>) -> bool {
        views(self.keys@).contains(k)
    }

    pub open spec fn has_inner(&self, k: Seq<u8>) -> bool {
        views(self.inner_keys@).contains(k)
    }

    pub open spec fn all_inner(&self, ks: Seq<Vec<u8>>) -> bool {
        forall|i: int| 0 <= i < ks.len() ==> self.has_inner(#[trigger] ks[i]@)
    }

    /// Builds the pools from the initial seed: the seeds of the key and the
    /// inner-key generators are drawn from a generator seeded with it, then
    /// each pool is filled with distinct alphanumeric keys. Also returns
    /// the inner-key generator, which the value buffer goes on with.
    pub fn new(initial_seed: [u8; 64], k: &config::cache::Keyspace, key_zipf: Option<ZipfDistribution>) -> (r:
        Result<(KeyPools, Xoshiro512PlusPlus), WorkloadError>)
        requires
            k.key_distribution == config::Distribution::Zipf ==> key_zipf is Some,
            k.inner_keys_nkeys != Some(0usize),
        ensures
            r matches Ok((p, _)) ==> {
                &&& p.wf()
                &&& p.keys@.len() == (if k.nkeys == 0 { 1 } else { k.nkeys })
                &&& alphanumeric_keys(views(p.keys@), k.klen as nat)
                &&& p.inner_keys@.len() == (match k.inner_keys_nkeys {
                    Some(n) => n,
                    None => 1,
                })
                &&& alphanumeric_keys(
                    views(p.inner_keys@),
                    (match k.inner_keys_klen {
                        Some(n) => n,
                        None => 1,
                    }) as nat,
                )
                &&& p.key_dist.is_uniform() == (k.key_distribution != config::Distribution::Zipf)
                &&& p.inner_key_dist.is_uniform()
            },
            r matches Err(e) ==> e == WorkloadError::NotEnoughDistinctKeys,
            keyspace_keys_fit(*k) ==> r is Ok,
    {
        // nkeys must be >= 1
        let nkeys: usize = if k.nkeys == 0 { 1 } else { k.nkeys };
        let mut rng = rng_from_seed(initial_seed);
        let key_seed = rng_seed(&mut rng);
        let inner_key_seed = rng_seed(&mut rng);

        let mut rng = rng_from_seed(key_seed);
        let keys = match generate_unique_keys(&mut rng, nkeys, k.klen) {
            Some(keys) => keys,
            None => return Err(WorkloadError::NotEnoughDistinctKeys),
        };
        let key_dist = if is_zipf(k.key_distribution) {
            match key_zipf {
                Some(z) => Distribution::zipf(z, nkeys),
                None => Distribution::uniform(nkeys),
            }
        } else {
            Distribution::uniform(nkeys)
        };

        let inner_nkeys: usize = match k.inner_keys_nkeys {
            Some(n) => n,
            None => 1,
        };
        let inner_klen: usize = match k.inner_keys_klen {
            Some(n) => n,
            None => 1,
        };
        let mut rng = rng_from_seed(inner_key_seed);
        let inner_keys = match generate_unique_keys(&mut rng, inner_nkeys, inner_klen) {
            Some(keys) => keys,
            None => return Err(WorkloadError::NotEnoughDistinctKeys),
        };
        let inner_key_dist = Distribution::uniform(inner_nkeys);
        Ok((KeyPools { keys, key_dist, inner_keys, inner_key_dist }, rng))
    }

    /// Draws a key.
    pub fn sample(&self, rng: &mut Xoshiro512PlusPlus) -> (r: Vec<u8>)
        requires
            self.wf(),
        ensures
            self.has_key(r@),
    {
        let index = self.key_dist.sample(rng);
        assert(views(self.keys@)[index as int] == self.keys@[index as int]@);
        self.keys[index].clone()
    }

    /// Draws an inner key.
    pub fn sample_inner(&self, rng: &mut Xoshiro512PlusPlus) -> (r: Vec<u8>)
        requires
            self.wf(),
        ensures
            self.has_inner(r@),
    {
        let index = self.inner_key_dist.sample(rng);
        assert(views(self.inner_keys@)[index as int] == self.inner_keys@[index as int]@);
        self.inner_keys[index].clone()
    }
}

/// The fields of the entries of a hash write.
pub open spec fn fields_of(data: Seq<(Vec<u8>, Bytes)>) -> Seq<Vec<u8>> {
    data.map_values(|e: (Vec<u8>, Bytes)| e.0)
}

/// Where byte values come from: windows of a shared buffer, or fresh
/// random bytes.
#[derive(Clone)]
pub enum Values {
    Window { vbuf: Bytes },
    Fresh,
}

/// What a value of a request may be: for `I64` values the decimal text of
/// an `i64`; for byte values the `vlen` bytes of the buffer at
/// `slot % (buffer length - vlen)`, or `vlen` fresh bytes.
pub open spec fn value_ok(values: Values, vkind: ValueKind, vlen: usize, v: Bytes, slot: usize) -> bool {
    match vkind {
        ValueKind::I64 => exists|x: i64| bytes_view(v) == decimal_text(x as int),
        ValueKind::Bytes => match values {
            Values::Window { vbuf } => {
                let start = slot as int % (bytes_view(vbuf).len() - vlen);
                bytes_view(v) == bytes_view(vbuf).subrange(start, start + vlen)
            },
            Values::Fresh => bytes_view(v).len() == vlen,
        },
    }
}

/// What generates the requests of a keyspace.
pub struct RequestContext<'a> {
    pub pools: &'a KeyPools,
    pub values: &'a Values,
    pub vkind: ValueKind,
    pub vlen: usize,
    pub ttl: Option<u64>,
}

impl<'a> RequestContext<'a> {
    pub open spec fn wf(&self) -> bool {
        &&& self.pools.wf()
        &&& *self.values matches Values::Window { vbuf } ==> self.vlen < bytes_view(vbuf).len()
    }

    pub open spec fn value_ok(&self, v: Bytes, slot: usize) -> bool {
        value_ok(*self.values, self.vkind, self.vlen, v, slot)
    }

    /// The value is one of a write at the slots `sequence..sequence + count`.
    pub open spec fn value_in_slots(&self, v: Bytes, sequence: u64, count: nat) -> bool {
        exists|t: nat| t < count && #[trigger] self.value_ok(v, (sequence + t) as usize)
    }

    pub open spec fn inner_distinct(&self, ks: Seq<Vec<u8>>, count: nat) -> bool {
        &&& ks.len() == count
        &&& distinct_seqs(views(ks))
        &&& self.pools.all_inner(ks)
    }

    /// The request `generate` makes for command `c` with `sequence`: the
    /// verb's request, with keys and inner keys from the pools, as many
    /// inner keys as the command's cardinality (all different where the
    /// request holds a set), values as `value_ok` says, and the keyspace's
    /// ttl and the command's truncate, start, end and by-score.
    pub open spec fn request_ok(&self, c: Command, req: ClientRequest, sequence: u64) -> bool {
        let p = self.pools;
        let card = c.cardinality as nat;
        match c.verb {
            Verb::Add => req matches ClientRequest::Add(r) && p.has_key(r.key@) && self.value_ok(
                r.value,
                sequence as usize,
            ) && r.ttl == self.ttl,
            Verb::Get => req matches ClientRequest::Get(r) && p.has_key(r.key@),
            Verb::SetValue => req matches ClientRequest::SetValue(r) && p.has_key(r.key@)
                && self.value_ok(r.value, sequence as usize) && r.ttl == self.ttl,
            Verb::Delete => req matches ClientRequest::Delete(r) && p.has_key(r.key@),
            Verb::Replace => req matches ClientRequest::Replace(r) && p.has_key(r.key@)
                && self.value_ok(r.value, sequence as usize) && r.ttl == self.ttl,
            Verb::HashGet => req matches ClientRequest::HashGet(r) && p.has_key(r.key@)
                && r.fields@.len() == card && p.all_inner(r.fields@),
            Verb::HashGetAll => req matches ClientRequest::HashGetAll(r) && p.has_key(r.key@),
            Verb::HashDelete => req matches ClientRequest::HashDelete(r) && p.has_key(r.key@)
                && r.fields@.len() == card && p.all_inner(r.fields@),
            Verb::HashExists => req matches ClientRequest::HashExists(r) && p.has_key(r.key@)
                && p.has_inner(r.field@),
            Verb::HashIncrement => req matches ClientRequest::HashIncrement(r) && p.has_key(r.key@)
                && p.has_inner(r.field@) && r.ttl == self.ttl,
            Verb::HashSet => req matches ClientRequest::HashSet(r) && p.has_key(r.key@)
                && self.inner_distinct(fields_of(r.data@), card)
                && (forall|i: int|
                #![trigger r.data@[i]]
                0 <= i < r.data@.len() ==> self.value_in_slots(r.data@[i].1, sequence, card as nat))
                && r.ttl == self.ttl,
            Verb::ListPushFront => req matches ClientRequest::ListPushFront(r) && p.has_key(r.key@)
                && r.elements@.len() == card && p.all_inner(r.elements@) && r.truncate
                == c.truncate && r.ttl == self.ttl,
            Verb::ListPushBack => req matches ClientRequest::ListPushBack(r) && p.has_key(r.key@)
                && r.elements@.len() == card && p.all_inner(r.elements@) && r.truncate
                == c.truncate && r.ttl == self.ttl,
            Verb::ListFetch => req matches ClientRequest::ListFetch(r) && p.has_key(r.key@),
            Verb::ListLength => req matches ClientRequest::ListLength(r) && p.has_key(r.key@),
            Verb::ListPopFront => req matches ClientRequest::ListPopFront(r) && p.has_key(r.key@),
            Verb::ListPopBack => req matches ClientRequest::ListPopBack(r) && p.has_key(r.key@),
            Verb::ListRemove => req matches ClientRequest::ListRemove(r) && p.has_key(r.key@)
                && p.has_inner(r.element@),
            Verb::Ping => req matches ClientRequest::Ping(_),
            Verb::SetAdd => req matches ClientRequest::SetAdd(r) && p.has_key(r.key@)
                && self.inner_distinct(r.members@, card) && r.ttl == self.ttl,
            Verb::SetMembers => req matches ClientRequest::SetMembers(r) && p.has_key(r.key@),
            Verb::SetRemove => req matches ClientRequest::SetRemove(r) && p.has_key(r.key@)
                && self.inner_distinct(r.members@, card),
            Verb::SortedSetAdd => req matches ClientRequest::SortedSetAdd(r) && p.has_key(r.key@)
                && self.inner_distinct(r.members@, card) && r.ttl == self.ttl,
            Verb::SortedSetRange => req matches ClientRequest::SortedSetRange(r) && p.has_key(
                r.key@,
            ) && r.start == c.start && r.end == c.end && r.by_score == c.by_score,
            Verb::SortedSetRemove => req matches ClientRequest::SortedSetRemove(r) && p.has_key(
                r.key@,
            ) && self.inner_distinct(r.members@, card),
            Verb::SortedSetIncrement => req matches ClientRequest::SortedSetIncrement(r)
                && p.has_key(r.key@) && p.has_inner(r.member@) && r.ttl == self.ttl,
            Verb::SortedSetScore => req matches ClientRequest::SortedSetScore(r) && p.has_key(
                r.key@,
            ) && self.inner_distinct(r.members@, card),
            Verb::SortedSetRank => req matches ClientRequest::SortedSetRank(r) && p.has_key(r.key@)
                && p.has_inner(r.member@),
        }
    }

    /// A command can be generated for when the sets it draws fit in the
    /// inner keys, and its sequence numbers stay within `u64`.
    pub open spec fn command_fits(&self, c: Command, sequence: u64) -> bool {
        c.verb.spec_needs_distinct() ==> {
            &&& c.cardinality <= self.pools.inner_keys@.len()
            &&& sequence + c.cardinality <= u64::MAX
        }
    }

    /// A value for a write at `slot`.
    pub fn gen_value(&self, slot: usize, rng: &mut Xoshiro512PlusPlus) -> (r: Bytes)
        requires
            self.wf(),
        ensures
            self.value_ok(r, slot),
    {
        match self.vkind {
            ValueKind::I64 => {
                let x = rng_i64(rng);
                let v = i64_decimal(x);
                bytes_from_vec(v)
            },
            ValueKind::Bytes => match self.values {
                Values::Window { vbuf } => {
                    let start: usize = slot % (bytes_len(vbuf) - self.vlen);
                    let end: usize = start + self.vlen;
                    bytes_slice(vbuf, start, end)
                },
                Values::Fresh => {
                    let v = rng_bytes(rng, self.vlen);
                    bytes_from_vec(v)
                },
            },
        }
    }

    /// The fields and values of a hash write: fields are drawn until
    /// `count` distinct ones are held, each drawn field taking a value for
    /// the slot `sequence + (fields held so far)`; a field drawn again
    /// takes the new value. Past `MAX_DRAWS` draws the fields are completed
    /// in pool order.
    fn gen_hash_data(&self, rng: &mut Xoshiro512PlusPlus, count: usize, sequence: u64) -> (r: Vec<(Vec<u8>, Bytes)>)
        requires
            self.wf(),
            count <= self.pools.inner_keys@.len(),
            sequence + count <= u64::MAX,
        ensures
            self.inner_distinct(fields_of(r@), count as nat),
            forall|i: int|
                #![trigger r@[i]]
                0 <= i < r@.len() ==> self.value_in_slots(r@[i].1, sequence, count as nat),
    {
        let mut data: Vec<(Vec<u8>, Bytes)> = Vec::new();
        let mut draws: u64 = 0;
        while data.len() < count && draws < MAX_DRAWS
            invariant
                self.wf(),
                count <= self.pools.inner_keys@.len(),
                sequence + count <= u64::MAX,
                data@.len() <= count,
                distinct_seqs(views(fields_of(data@))),
                self.pools.all_inner(fields_of(data@)),
                forall|i: int|
                    #![trigger data@[i]]
                    0 <= i < data@.len() ==> self.value_in_slots(data@[i].1, sequence, count as nat),
            decreases MAX_DRAWS - draws,
        {
            draws = draws + 1;
            let field = self.pools.sample_inner(rng);
            let slot: usize = (sequence + data.len() as u64) as usize;
            let value = self.gen_value(slot, rng);
            let ghost before = data@;
            proof {
                assert(self.value_ok(value, (sequence + data@.len() as nat) as usize));
            }
            match find_field(&data, &field) {
                Some(j) => {
                    data.set(j, (field, value));
                    proof {
                        assert(fields_of(data@) =~= fields_of(before).update(j as int, field));
                        assert(views(fields_of(data@)) =~= views(
                            fields_of(before),
                        ));
                        assert forall|i: int| #![trigger data@[i]] 0 <= i < data@.len() implies self.value_in_slots(data@[i].1, sequence, count as nat) by {
                            if i == j {
                                assert(self.value_ok(data@[i].1, (sequence + data@.len() as nat) as usize));
                            } else {
                                assert(data@[i] == before[i]);
                            }
                        }
                    }
                },
                None => {
                    data.push((field, value));
                    proof {
                        assert(fields_of(data@) =~= fields_of(before).push(field));
                        assert(views(fields_of(data@)) =~= views(
                            fields_of(before),
                        ).push(field@));
                        assert forall|i: int| #![trigger data@[i]] 0 <= i < data@.len() implies self.value_in_slots(data@[i].1, sequence, count as nat) by {
                            if i == before.len() {
                                assert(self.value_ok(data@[i].1, (sequence + before.len() as nat) as usize));
                            } else {
                                assert(data@[i] == before[i]);
                            }
                        }
                    }
                },
            }
        }
        if data.len() < count {
            // complete the fields in pool order
            let ghost held = fields_of(data@);
            let mut fields: Vec<Vec<u8>> = Vec::new();
            let mut i: usize = 0;
            while i < data.len()
                invariant
                    i <= data@.len(),
                    fields@.len() == i,
                    forall|j: int| 0 <= j < i ==> #[trigger] fields@[j]@ == data@[j].0@,
                decreases data@.len() - i,
            {
                fields.push(data[i].0.clone());
                i = i + 1;
            }
            assert(views(fields@) =~= views(fields_of(data@)));
            assert forall|q: int| 0 <= q < fields@.len() implies views(
                self.pools.inner_keys@,
            ).contains(#[trigger] fields@[q]@) by {
                assert(fields_of(data@)[q]@ == fields@[q]@);
            }
            let all = complete_in_pool_order(fields, &self.pools.inner_keys, count);
            let mut j: usize = data.len();
            while j < count
                invariant
                    self.wf(),
                    data@.len() == j,
                    j <= count,
                    sequence + count <= u64::MAX,
                    all@.len() == count,
                    forall|q: int| 0 <= q < j ==> #[trigger] data@[q].0@ == all@[q]@,
                    forall|i: int|
                        #![trigger data@[i]]
                        0 <= i < data@.len() ==> self.value_in_slots(data@[i].1, sequence, count as nat),
                decreases count - j,
            {
                let slot: usize = (sequence + j as u64) as usize;
                let value = self.gen_value(slot, rng);
                let ghost before = data@;
                data.push((all[j].clone(), value));
                proof {
                    assert forall|i: int| #![trigger data@[i]] 0 <= i < data@.len() implies self.value_in_slots(data@[i].1, sequence, count as nat) by {
                        if i == j {
                            assert(self.value_ok(data@[i].1, (sequence + j as nat) as usize));
                        } else {
                            assert(data@[i] == before[i]);
                        }
                    }
                }
                j = j + 1;
            }
            proof {
                assert(views(fields_of(data@)) =~= views(all@));
                assert forall|q: int| 0 <= q < data@.len() implies self.pools.has_inner(
                    #[trigger] fields_of(data@)[q]@,
                ) by {
                    assert(views(all@)[q] == all@[q]@);
                }
            }
        }
        data
    }

    /// Generates the request of command `c`, drawing keys, inner keys and
    /// values in the order the verb takes them.
    pub fn generate(&self, c: Command, rng: &mut Xoshiro512PlusPlus, sequence: u64) -> (r: ClientRequest)
        requires
            self.wf(),
            self.command_fits(c, sequence),
        ensures
            self.request_ok(c, r, sequence),
    {
        let p = self.pools;
        let slot: usize = sequence as usize;
        match c.verb {
            Verb::Add => ClientRequest::Add(
                Add { key: p.sample(rng), value: self.gen_value(slot, rng), ttl: self.ttl },
            ),
            Verb::Get => ClientRequest::Get(Get { key: p.sample(rng) }),
            Verb::SetValue => ClientRequest::SetValue(
                SetValue { key: p.sample(rng), value: self.gen_value(slot, rng), ttl: self.ttl },
            ),
            Verb::Delete => ClientRequest::Delete(Delete { key: p.sample(rng) }),
            Verb::Replace => ClientRequest::Replace(
                Replace { key: p.sample(rng), value: self.gen_value(slot, rng), ttl: self.ttl },
            ),
            Verb::HashGet => {
                let fields = sample_keys(&p.inner_keys, &p.inner_key_dist, rng, c.cardinality);
                ClientRequest::HashGet(HashGet { key: p.sample(rng), fields })
            },
            Verb::HashGetAll => ClientRequest::HashGetAll(HashGetAll { key: p.sample(rng) }),
            Verb::HashDelete => {
                let fields = sample_keys(&p.inner_keys, &p.inner_key_dist, rng, c.cardinality);
                ClientRequest::HashDelete(HashDelete { key: p.sample(rng), fields })
            },
            Verb::HashExists => ClientRequest::HashExists(
                HashExists { key: p.sample(rng), field: p.sample_inner(rng) },
            ),
            Verb::HashIncrement => {
                let key = p.sample(rng);
                let field = p.sample_inner(rng);
                let amount = rng_i64(rng);
                ClientRequest::HashIncrement(HashIncrement { key, field, amount, ttl: self.ttl })
            },
            Verb::HashSet => {
                let data = self.gen_hash_data(rng, c.cardinality, sequence);
                ClientRequest::HashSet(HashSet { key: p.sample(rng), data, ttl: self.ttl })
            },
            Verb::ListPushFront => {
                let elements = sample_keys(&p.inner_keys, &p.inner_key_dist, rng, c.cardinality);
                ClientRequest::ListPushFront(
                    ListPushFront {
                        key: p.sample(rng),
                        elements,
                        truncate: c.truncate,
                        ttl: self.ttl,
                    },
                )
            },
            Verb::ListPushBack => {
                let elements = sample_keys(&p.inner_keys, &p.inner_key_dist, rng, c.cardinality);
                ClientRequest::ListPushBack(
                    ListPushBack {
                        key: p.sample(rng),
                        elements,
                        truncate: c.truncate,
                        ttl: self.ttl,
                    },
                )
            },
            Verb::ListFetch => ClientRequest::ListFetch(ListFetch { key: p.sample(rng) }),
            Verb::ListLength => ClientRequest::ListLength(ListLength { key: p.sample(rng) }),
            Verb::ListPopFront => ClientRequest::ListPopFront(ListPopFront { key: p.sample(rng) }),
            Verb::ListPopBack => ClientRequest::ListPopBack(ListPopBack { key: p.sample(rng) }),
            Verb::ListRemove => ClientRequest::ListRemove(
                ListRemove { key: p.sample(rng), element: p.sample_inner(rng) },
            ),
            Verb::Ping => ClientRequest::Ping(Ping {  }),
            Verb::SetAdd => {
                let members = sample_distinct_keys(
                    &p.inner_keys,
                    &p.inner_key_dist,
                    rng,
                    c.cardinality,
                );
                ClientRequest::SetAdd(SetAdd { key: p.sample(rng), members, ttl: self.ttl })
            },
            Verb::SetMembers => ClientRequest::SetMembers(SetMembers { key: p.sample(rng) }),
            Verb::SetRemove => {
                let members = sample_distinct_keys(
                    &p.inner_keys,
                    &p.inner_key_dist,
                    rng,
                    c.cardinality,
                );
                ClientRequest::SetRemove(SetRemove { key: p.sample(rng), members })
            },
            Verb::SortedSetAdd => {
                let members = sample_distinct_keys(
                    &p.inner_keys,
                    &p.inner_key_dist,
                    rng,
                    c.cardinality,
                );
                ClientRequest::SortedSetAdd(
                    SortedSetAdd { key: p.sample(rng), members, ttl: self.ttl },
                )
            },
            Verb::SortedSetRange => ClientRequest::SortedSetRange(
                SortedSetRange {
                    key: p.sample(rng),
                    start: c.start,
                    end: c.end,
                    by_score: c.by_score,
                },
            ),
            Verb::SortedSetRemove => {
                let members = sample_distinct_keys(
                    &p.inner_keys,
                    &p.inner_key_dist,
                    rng,
                    c.cardinality,
                );
                ClientRequest::SortedSetRemove(SortedSetRemove { key: p.sample(rng), members })
            },
            Verb::SortedSetIncrement => {
                let key = p.sample(rng);
                let member = p.sample_inner(rng);
                ClientRequest::SortedSetIncrement(SortedSetIncrement { key, member, ttl: self.ttl })
            },
            Verb::SortedSetScore => {
                let members = sample_distinct_keys(
                    &p.inner_keys,
                    &p.inner_key_dist,
                    rng,
                    c.cardinality,
                );
                ClientRequest::SortedSetScore(SortedSetScore { key: p.sample(rng), members })
            },
            Verb::SortedSetRank => ClientRequest::SortedSetRank(
                SortedSetRank { key: p.sample(rng), member: p.sample_inner(rng) },
            ),
        }
    }
}

/// The position of the entry with field `field`, if any.
fn find_field(data: &Vec<(Vec<u8>, Bytes)>, field: &Vec<u8>) -> (r: Option<usize>)
    ensures
        r is None <==> !views(fields_of(data@)).contains(field@),
        r matches Some(j) ==> j < data@.len() && data@[j as int].0@ == field@,
{
    let mut i: usize = 0;
    while i < data.len()
        invariant
            i <= data@.len(),
            forall|j: int| 0 <= j < i ==> data@[j].0@ != field@,
        decreases data@.len() - i,
    {
        if bytes_eq(&data[i].0, field) {
            assert(views(fields_of(data@))[i as int] == field@);
            return Some(i);
        }
        i = i + 1;
    }
    assert forall|j: int|
        0 <= j < views(fields_of(data@)).len() implies #[trigger] views(
        fields_of(data@),
    )[j] != field@ by {
        assert(views(fields_of(data@))[j] == data@[j].0@);
    }
    None
}

/// The sets a keyspace's commands draw fit in its inner keys: a command
/// whose members must differ asks for no more of them than there are inner
/// keys (else drawing them would never end).
pub open spec fn cardinalities_fit(k: config::cache::Keyspace) -> bool {
    forall|i: int|
        0 <= i < k.commands@.len() ==> (#[trigger] k.commands@[i]).verb.spec_needs_distinct()
            ==> k.commands@[i].cardinality <= (match k.inner_keys_nkeys {
            Some(n) => n,
            None => 1usize,
        })
}

/// Whether the sets a keyspace's commands draw fit in its inner keys.
pub fn cardinalities_fit_check(k: &config::cache::Keyspace) -> (r: bool)
    ensures
        r == cardinalities_fit(*k),
{
    let inner: usize = match k.inner_keys_nkeys {
        Some(n) => n,
        None => 1,
    };
    let mut i: usize = 0;
    while i < k.commands.len()
        invariant
            i <= k.commands@.len(),
            inner == (match k.inner_keys_nkeys {
                Some(n) => n,
                None => 1usize,
            }),
            forall|j: int|
                0 <= j < i ==> (#[trigger] k.commands@[j]).verb.spec_needs_distinct()
                    ==> k.commands@[j].cardinality <= inner,
        decreases k.commands@.len() - i,
    {
        if k.commands[i].verb.needs_distinct() && k.commands[i].cardinality > inner {
            return false;
        }
        i = i + 1;
    }
    true
}

/// The weights of the commands, in order.
fn command_weights(commands: &Vec<Command>) -> (r: Vec<usize>)
    ensures
        r@.len() == commands@.len(),
        forall|i: int| 0 <= i < r@.len() ==> #[trigger] r@[i] == commands@[i].weight,
{
    let mut weights: Vec<usize> = Vec::new();
    let mut i: usize = 0;
    while i < commands.len()
        invariant
            i <= commands@.len(),
            weights@.len() == i,
            forall|j: int| 0 <= j < i ==> #[trigger] weights@[j] == commands@[j].weight,
        decreases commands@.len() - i,
    {
        weights.push(commands[i].weight);
        i = i + 1;
    }
    weights
}

/// Whether `weighted_choice_new` accepts weights.
pub open spec fn weights_accepted(w: Seq<usize>) -> bool {
    &&& 0 < w.len() <= u32::MAX
    &&& forall|i: int| 0 <= i < w.len() ==> #[trigger] w[i] <= (usize::MAX as nat) / w.len()
    &&& exists|i: int| 0 <= i < w.len() && #[trigger] w[i] > 0
}

pub open spec fn weights_of(commands: Seq<Command>) -> Seq<usize> {
    commands.map_values(|c: Command| c.weight)
}

/// A cache workload: a keyspace ready to generate requests, with byte
/// values cut from a shared 100 MiB buffer.
#[derive(Clone)]
pub struct CacheWorkload {
    pub pools: KeyPools,
    pub commands: Vec<Command>,
    pub command_dist: WeightedChoice,
    pub vlen: usize,
    pub vkind: ValueKind,
    pub ttl: Option<u64>,
    pub values: Values,
}

impl CacheWorkload {
    pub open spec fn wf(&self) -> bool {
        &&& self.pools.wf()
        &&& weighted_choice_weights(self.command_dist) == weights_of(self.commands@)
        &&& self.values matches Values::Window { vbuf } && self.vlen < bytes_view(vbuf).len()
        &&& forall|i: int|
            0 <= i < self.commands@.len() ==> (#[trigger] self.commands@[i]).verb.spec_needs_distinct()
                ==> self.commands@[i].cardinality <= self.pools.inner_keys@.len()
    }

    /// The buffer values are cut from.
    pub open spec fn vbuf(&self) -> Seq<u8> {
        match self.values {
            Values::Window { vbuf } => bytes_view(vbuf),
            Values::Fresh => Seq::empty(),
        }
    }

    pub open spec fn context(&self) -> RequestContext<'_> {
        RequestContext {
            pools: &self.pools,
            values: &self.values,
            vkind: self.vkind,
            vlen: self.vlen,
            ttl: self.ttl,
        }
    }

    /// Builds the workload of a validated keyspace from the initial seed:
    /// the key pools (see `KeyPools::new`), then a 100 MiB value buffer of
    /// zeros whose first `value_random_bytes` bytes are drawn from the
    /// inner-key generator, shuffled with that generator.
    pub fn new(
        initial_seed: [u8; 64],
        k: &config::cache::Keyspace,
        key_zipf: Option<ZipfDistribution>,
        value_random_bytes: usize,
    ) -> (r: Result<Self, WorkloadError>)
        requires
            forall|i: int| 0 <= i < k.commands@.len() ==> command_error(*k, #[trigger] k.commands@[i]) is None,
            cardinalities_fit(*k),
            k.key_distribution == config::Distribution::Zipf ==> key_zipf is Some,
            k.inner_keys_nkeys != Some(0usize),
            value_random_bytes <= VALUE_BUFFER_LEN,
            (match k.vlen {
                Some(v) => v,
                None => 0usize,
            }) < VALUE_BUFFER_LEN,
        ensures
            r matches Ok(w) ==> {
                &&& w.wf()
                &&& w.commands@ == k.commands@
                &&& w.vlen == (match k.vlen {
                    Some(v) => v,
                    None => 0usize,
                })
                &&& w.vkind == k.spec_vkind()
                &&& w.ttl == k.ttl
                &&& w.vbuf().len() == VALUE_BUFFER_LEN
                &&& exists|random: Seq<u8>|
                    random.len() == value_random_bytes && #[trigger] w.vbuf().to_multiset() == (random
                        + Seq::new((VALUE_BUFFER_LEN - value_random_bytes) as nat, |i: int| 0u8)).to_multiset()
                &&& w.pools.keys@.len() == (if k.nkeys == 0 { 1 } else { k.nkeys })
                &&& w.pools.key_dist.is_uniform() == (k.key_distribution != config::Distribution::Zipf)
                &&& w.pools.inner_key_dist.is_uniform()
                &&& alphanumeric_keys(views(w.pools.inner_keys@), inner_len(*k))
                &&& weighted_choice_weights(w.command_dist) == weights_of(k.commands@)
                &&& alphanumeric_keys(views(w.pools.keys@), k.klen as nat)
                &&& w.pools.inner_keys@.len() == (match k.inner_keys_nkeys {
                    Some(n) => n,
                    None => 1,
                })
            },
            !weights_accepted(weights_of(k.commands@)) ==> r is Err,
            weights_accepted(weights_of(k.commands@)) && keyspace_keys_fit(*k) ==> r is Ok,
            r matches Err(e) ==> (e == WorkloadError::InvalidWeights ==> !weights_accepted(weights_of(k.commands@))),
            r matches Err(e) ==> (weights_accepted(weights_of(k.commands@)) ==> e == WorkloadError::NotEnoughDistinctKeys),
    {
        let (pools, mut rng) = match KeyPools::new(initial_seed, k, key_zipf) {
            Ok(x) => x,
            Err(e) => return Err(e),
        };
        let commands = k.commands.clone();
        assert(commands@ =~= k.commands@);
        let weights = command_weights(&commands);
        assert(weights@ =~= weights_of(k.commands@));

        // the value buffer: random bytes, then zeros, shuffled
        let mut vbuf = rng_bytes(&mut rng, value_random_bytes);
        let ghost random = vbuf@;
        vbuf.resize(VALUE_BUFFER_LEN, 0u8);
        proof {
            assert(vbuf@ =~= random + Seq::new(
                (VALUE_BUFFER_LEN - value_random_bytes) as nat,
                |i: int| 0u8,
            ));
        }
        let ghost filled = vbuf@;
        rng_shuffle_bytes(&mut rng, &mut vbuf);
        let vbuf = bytes_from_vec(vbuf);

        let command_dist = match weighted_choice_new(weights) {
            Some(d) => d,
            None => return Err(WorkloadError::InvalidWeights),
        };
        let vlen: usize = match k.vlen {
            Some(v) => v,
            None => 0,
        };
        let w = CacheWorkload {
            pools,
            commands,
            command_dist,
            vlen,
            vkind: k.vkind(),
            ttl: k.ttl,
            values: Values::Window { vbuf },
        };
        proof {
            assert(w.vbuf().to_multiset() == filled.to_multiset());
            assert forall|i: int|
                0 <= i < w.commands@.len() && (#[trigger] w.commands@[i]).verb.spec_needs_distinct()
                implies w.commands@[i].cardinality <= w.pools.inner_keys@.len() by {
                assert(w.commands@[i] == k.commands@[i]);
            }
        }
        Ok(w)
    }

    /// Draws a key.
    pub fn sample(&self, rng: &mut Xoshiro512PlusPlus) -> (r: Vec<u8>)
        requires
            self.wf(),
        ensures
            self.pools.has_key(r@),
    {
        self.pools.sample(rng)
    }

    /// Draws an inner key.
    pub fn sample_inner(&self, rng: &mut Xoshiro512PlusPlus) -> (r: Vec<u8>)
        requires
            self.wf(),
        ensures
            self.pools.has_inner(r@),
    {
        self.pools.sample_inner(rng)
    }

    /// A value for a write with sequence number `sequence`: the decimal
    /// text of a random `i64`, or the `vlen` bytes of the buffer at
    /// `sequence % (buffer length - vlen)`.
    pub fn gen_value(&self, sequence: usize, rng: &mut Xoshiro512PlusPlus) -> (r: Bytes)
        requires
            self.wf(),
        ensures
            value_ok(self.values, self.vkind, self.vlen, r, sequence),
    {
        let ctx = RequestContext {
            pools: &self.pools,
            values: &self.values,
            vkind: self.vkind,
            vlen: self.vlen,
            ttl: self.ttl,
        };
        ctx.gen_value(sequence, rng)
    }

    /// The time to live of written items, in seconds.
    pub fn ttl(&self) -> (r: Option<u64>)
        ensures
            r == self.ttl,
    {
        self.ttl
    }

    /// Draws a command by weight and generates its request, numbered
    /// `sequence`.
    pub fn generate_request(&self, rng: &mut Xoshiro512PlusPlus, sequence: u64) -> (r: ClientWorkItemKind<ClientRequest>)
        requires
            self.wf(),
            sequence + self.pools.inner_keys@.len() <= u64::MAX,
        ensures
            r matches ClientWorkItemKind::Request { request, sequence: s } && s == sequence
                && exists|i: int|
                0 <= i < self.commands@.len() && (#[trigger] self.commands@[i]).weight > 0
                    && self.context().request_ok(self.commands@[i], request, sequence),
    {
        let i = weighted_choice_sample(&self.command_dist, rng);
        let c = self.commands[i];
        assert(weights_of(self.commands@)[i as int] == c.weight);
        let ctx = RequestContext {
            pools: &self.pools,
            values: &self.values,
            vkind: self.vkind,
            vlen: self.vlen,
            ttl: self.ttl,
        };
        let request = ctx.generate(c, rng, sequence);
        ClientWorkItemKind::Request { request, sequence }
    }
}

/// The verb sets of the configuration follow from the requests the verbs
/// make: a verb that takes a cardinality makes requests with exactly that
/// many inner keys, any other verb at most one; a request with an inner
/// key comes from a verb that needs inner keys, and a verb that needs them
/// puts at least one in each request of a command with a cardinality; a
/// verb that needs distinct inner keys makes requests whose inner keys all
/// differ.
pub proof fn lemma_verb_sets_follow_requests(
    ctx: RequestContext,
    c: Command,
    req: ClientRequest,
    sequence: u64,
)
    requires
        ctx.request_ok(c, req, sequence),
    ensures
        c.verb.spec_supports_cardinality() ==> inner_key_count(req) == c.cardinality,
        !c.verb.spec_supports_cardinality() ==> inner_key_count(req) <= 1,
        inner_key_count(req) > 0 ==> c.verb.spec_needs_inner_key(),
        c.verb.spec_needs_inner_key() && c.cardinality > 0 ==> inner_key_count(req) > 0,
        c.verb.spec_needs_distinct() ==> distinct_seqs(views(inner_keys(req))),
{
    match req {
        ClientRequest::HashSet(r) => {
            assert(fields_of(r.data@) =~= inner_keys(req));
        },
        _ => {},
    }
}

/// What `validate` decides of a command matches the requests the command
/// makes: a command it accepts makes requests with at most `cardinality`
/// inner keys, with inner keys only when the keyspace configures them, and
/// with the truncation it asks for;
/// it refuses a cardinality exactly where requests would carry fewer inner
/// keys than the cardinality, and missing inner keys exactly where
/// requests carry some.
pub proof fn lemma_validate_follows_requests(
    k: config::cache::Keyspace,
    ctx: RequestContext,
    c: Command,
    req: ClientRequest,
    sequence: u64,
)
    requires
        ctx.request_ok(c, req, sequence),
    ensures
        command_error(k, c) is None ==> inner_key_count(req) <= c.cardinality,
        command_error(k, c) is None && inner_key_count(req) > 0 ==> k.inner_keys_nkeys is Some
            && k.inner_keys_klen is Some,
        command_error(k, c) is None ==> request_truncate(req) == c.truncate,
        command_error(k, c) == Some(KeyspaceError::CardinalityNotSupported(c.verb))
            ==> inner_key_count(req) < c.cardinality,
        command_error(k, c) == Some(KeyspaceError::MissingInnerKeys(c.verb)) ==> inner_key_count(req)
            > 0,
{
    lemma_verb_sets_follow_requests(ctx, c, req, sequence);
}

} // verus!

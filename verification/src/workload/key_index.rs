use crate::workload::keys::{bytes_eq, views};
use std::collections::HashMap;
use vstd::prelude::*;

verus! {

broadcast use vstd::std_specs::hash::group_hash_axioms;

/// The 64-bit FNV-1a hash of a byte string.
pub open spec fn key_hash(s: Seq<u8>) -> u64
    decreases s.len(),
{
    if s.len() == 0 {
        0xcbf29ce484222325u64
    } else {
        (key_hash(s.drop_last()) ^ (s.last() as u64)).wrapping_mul(0x100000001b3u64)
    }
}

/// The FNV-1a hash of a key.
pub fn hash_key(k: &Vec<u8>) -> (r: u64)
    ensures
        r == key_hash(k@),
{
    let mut h: u64 = 0xcbf29ce484222325u64;
    let mut i: usize = 0;
    while i < k.len()
        invariant
            i <= k@.len(),
            h == key_hash(k@.subrange(0, i as int)),
        decreases k@.len() - i,
    {
        assert(k@.subrange(0, i + 1).drop_last() =~= k@.subrange(0, i as int));
        h = (h ^ (k[i] as u64)).wrapping_mul(0x100000001b3u64);
        i = i + 1;
    }
    assert(k@.subrange(0, k@.len() as int) =~= k@);
    h
}

/// Keys held in insertion order, with an index of their positions by hash
/// for membership tests in expected constant time. A `HashSet<Vec<u8>>`
/// cannot serve here: std's hash set is specified only for keys whose
/// hashing vstd models (integers, `bool`, and boxes of them), so nothing
/// could be proved of its membership for byte strings; the buckets are
/// keyed by a `u64` hash, which it models.
pub struct KeyIndex {
    keys: Vec<Vec<u8>>,
    buckets: HashMap<u64, Vec<usize>>,
}

impl KeyIndex {
    /// The keys held, in insertion order.
    pub closed spec fn spec_keys(&self) -> Seq<Vec<u8>> {
        self.keys@
    }

    /// Each key's position is in the bucket of its hash, and every bucket
    /// holds positions of keys.
    pub closed spec fn wf(&self) -> bool {
        &&& forall|j: int|
            0 <= j < self.keys@.len() ==> {
                let hv = key_hash(#[trigger] self.keys@[j]@);
                &&& self.buckets@.contains_key(hv)
                &&& self.buckets@[hv]@.contains(j as usize)
            }
        &&& forall|hv: u64, q: int|
            #![trigger self.buckets@[hv]@[q]]
            self.buckets@.contains_key(hv) && 0 <= q < self.buckets@[hv]@.len()
                ==> self.buckets@[hv]@[q] < self.keys@.len()
    }

    /// An empty index.
    pub fn new() -> (r: Self)
        ensures
            r.wf(),
            r.spec_keys().len() == 0,
    {
        KeyIndex { keys: Vec::new(), buckets: HashMap::new() }
    }

    /// The number of keys held.
    pub fn len(&self) -> (r: usize)
        ensures
            r == self.spec_keys().len(),
    {
        self.keys.len()
    }

    /// Whether `k` is held.
    pub fn contains(&self, k: &Vec<u8>) -> (r: bool)
        requires
            self.wf(),
        ensures
            r == views(self.spec_keys()).contains(k@),
    {
        let hv = hash_key(k);
        match self.buckets.get(&hv) {
            None => {
                proof {
                    assert forall|j: int| 0 <= j < views(self.keys@).len() implies views(self.keys@)[j] != k@ by {
                        assert(views(self.keys@)[j] == self.keys@[j]@);
                        let _ = key_hash(self.keys@[j]@);
                    }
                }
                false
            },
            Some(bucket) => {
                assert(self.buckets@[hv] == *bucket);
                let mut q: usize = 0;
                while q < bucket.len()
                    invariant
                        self.wf(),
                        self.buckets@.contains_key(hv),
                        self.buckets@[hv] == *bucket,
                        q <= bucket@.len(),
                        forall|p: int| 0 <= p < q ==> self.keys@[bucket@[p] as int]@ != k@,
                    decreases bucket@.len() - q,
                {
                    let idx = bucket[q];
                    assert(self.buckets@[hv]@[q as int] == idx);
                    if bytes_eq(&self.keys[idx], k) {
                        assert(views(self.keys@)[idx as int] == k@);
                        return true;
                    }
                    q = q + 1;
                }
                proof {
                    assert forall|j: int| 0 <= j < views(self.keys@).len() implies views(self.keys@)[j] != k@ by {
                        assert(views(self.keys@)[j] == self.keys@[j]@);
                        if self.keys@[j]@ == k@ {
                            assert(self.keys@.len() == self.keys.len());
                            assert(key_hash(self.keys@[j]@) == hv);
                            assert(self.buckets@[hv]@.contains(j as usize));
                            assert(bucket@ == self.buckets@[hv]@);
                            let p = choose|p: int| 0 <= p < bucket@.len() && bucket@[p] == j as usize;
                            assert(bucket@[p] as int == j);
                            assert(self.keys@[bucket@[p] as int]@ != k@);
                        }
                    }
                }
                false
            },
        }
    }

    /// Adds a key that is not held.
    pub fn insert(&mut self, k: Vec<u8>)
        requires
            old(self).wf(),
            !views(old(self).spec_keys()).contains(k@),
        ensures
            final(self).wf(),
            final(self).spec_keys() == old(self).spec_keys().push(k),
    {
        let hv = hash_key(&k);
        let n = self.keys.len();
        let ghost old_keys = self.keys@;
        let ghost old_buckets = self.buckets@;
        let mut bucket = match self.buckets.remove(&hv) {
            Some(b) => b,
            None => Vec::new(),
        };
        let ghost old_bucket = bucket@;
        assert(old_buckets.contains_key(hv) ==> old_bucket == old_buckets[hv]@);
        assert(!old_buckets.contains_key(hv) ==> old_bucket.len() == 0);
        bucket.push(n);
        self.buckets.insert(hv, bucket);
        self.keys.push(k);
        proof {
            assert(self.buckets@ == old_buckets.insert(hv, self.buckets@[hv]));
            assert(self.buckets@[hv]@ == old_bucket.push(n));
            assert forall|j: int| 0 <= j < self.keys@.len() implies {
                let h = key_hash(#[trigger] self.keys@[j]@);
                &&& self.buckets@.contains_key(h)
                &&& self.buckets@[h]@.contains(j as usize)
            } by {
                let h = key_hash(self.keys@[j]@);
                if j == n {
                    assert(self.buckets@[hv]@[old_bucket.len() as int] == n);
                } else {
                    assert(self.keys@[j] == old_keys[j]);
                    let _ = key_hash(old_keys[j]@);
                    if h == hv {
                        let p = choose|p: int| 0 <= p < old_bucket.len() && old_bucket[p] == j as usize;
                        assert(self.buckets@[hv]@[p] == j as usize);
                    }
                }
            }
            assert forall|h: u64, q: int|
                self.buckets@.contains_key(h) && 0 <= q < self.buckets@[h]@.len()
                    implies #[trigger] self.buckets@[h]@[q] < self.keys@.len() by {
                if h == hv {
                    if q < old_bucket.len() {
                        assert(self.buckets@[hv]@[q] == old_bucket[q]);
                        assert(old_buckets[hv]@[q] == old_bucket[q]);
                    }
                } else {
                    assert(self.buckets@[h] == old_buckets[h]);
                    assert(old_buckets[h]@[q] < old_keys.len());
                }
            }
        }
    }

    /// The keys held, in insertion order.
    pub fn into_keys(self) -> (r: Vec<Vec<u8>>)
        ensures
            r@ == self.spec_keys(),
    {
        self.keys
    }
}

} // verus!

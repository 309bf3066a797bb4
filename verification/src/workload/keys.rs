use crate::workload::buf::{ascii_chars, ascii_string};
use crate::workload::distribution::Distribution;
use crate::workload::key_index::KeyIndex;
use crate::workload::rng::{is_alphanumeric, rng_alphanumeric};
use rand_xoshiro::Xoshiro512PlusPlus;
use vstd::prelude::*;

verus! {

/// The byte strings held by a vector of keys.
pub open spec fn views(v: Seq<Vec<u8>>) -> Seq<Seq<u8>> {
    v.map_values(|k: Vec<u8>| k@)
}

/// No byte string occurs twice.
pub open spec fn distinct_seqs(s: Seq<Seq<u8>>) -> bool {
    forall|i: int, j: int| 0 <= i < j < s.len() ==> s[i] != s[j]
}

/// Keys of length `klen` made of ASCII letters and digits.
pub open spec fn alphanumeric_keys(s: Seq<Seq<u8>>, klen: nat) -> bool {
    forall|i: int|
        0 <= i < s.len() ==> (#[trigger] s[i]).len() == klen && forall|j: int|
            0 <= j < klen ==> is_alphanumeric(#[trigger] s[i][j])
}

/// A byte string made of ASCII letters and digits.
pub open spec fn all_alphanumeric(k: Seq<u8>) -> bool {
    forall|j: int| 0 <= j < k.len() ==> is_alphanumeric(#[trigger] k[j])
}

/// The most draws a generator makes before it gives up on filling a set of
/// distinct keys.
pub const MAX_DRAWS: u64 = 0xffff_ffff_ffff_ffffu64;

/// Whether two byte strings are equal.
pub fn bytes_eq(a: &Vec<u8>, b: &Vec<u8>) -> (r: bool)
    ensures
        r == (a@ == b@),
{
    if a.len() != b.len() {
        return false;
    }
    let mut i: usize = 0;
    while i < a.len()
        invariant
            a@.len() == b@.len(),
            i <= a@.len(),
            forall|j: int| 0 <= j < i ==> a@[j] == b@[j],
        decreases a@.len() - i,
    {
        if a[i] != b[i] {
            return false;
        }
        i = i + 1;
    }
    assert(a@ =~= b@);
    true
}

/// Whether `k` is one of `keys`.
pub fn contains_key(keys: &Vec<Vec<u8>>, k: &Vec<u8>) -> (r: bool)
    ensures
        r == views(keys@).contains(k@),
{
    let mut i: usize = 0;
    while i < keys.len()
        invariant
            i <= keys@.len(),
            forall|j: int| 0 <= j < i ==> keys@[j]@ != k@,
        decreases keys@.len() - i,
    {
        if bytes_eq(&keys[i], k) {
            assert(views(keys@)[i as int] == k@);
            return true;
        }
        i = i + 1;
    }
    assert forall|j: int| 0 <= j < views(keys@).len() implies views(keys@)[j] != k@ by {
        assert(views(keys@)[j] == keys@[j]@);
    }
    false
}

/// The ASCII letter or digit that stands for a base-62 digit: `0-9`, then
/// `A-Z`, then `a-z`.
pub open spec fn alnum_digit(d: int) -> u8 {
    if d < 10 {
        (0x30 + d) as u8
    } else if d < 36 {
        (0x41 + d - 10) as u8
    } else {
        (0x61 + d - 36) as u8
    }
}

/// The key of `klen` letters and digits that spells `m` in base 62, most
/// significant digit first (`m` is taken modulo `62^klen`).
pub open spec fn enumerated_key(m: nat, klen: nat) -> Seq<u8>
    decreases klen,
{
    if klen == 0 {
        Seq::empty()
    } else {
        enumerated_key(m / 62, (klen - 1) as nat).push(alnum_digit((m % 62) as int))
    }
}

/// An enumerated key has `klen` letters and digits.
pub proof fn lemma_enumerated_key_shape(m: nat, klen: nat)
    ensures
        enumerated_key(m, klen).len() == klen,
        all_alphanumeric(enumerated_key(m, klen)),
    decreases klen,
{
    if klen > 0 {
        lemma_enumerated_key_shape(m / 62, (klen - 1) as nat);
        let p = enumerated_key(m / 62, (klen - 1) as nat);
        assert forall|j: int| 0 <= j < enumerated_key(m, klen).len() implies is_alphanumeric(
            #[trigger] enumerated_key(m, klen)[j],
        ) by {
            if j < p.len() {
                assert(enumerated_key(m, klen)[j] == p[j]);
            }
        }
    }
}

/// Numbers below `62^klen` spell different keys.
pub proof fn lemma_enumerated_key_injective(a: nat, b: nat, klen: nat)
    requires
        a < vstd::arithmetic::power::pow(62, klen),
        b < vstd::arithmetic::power::pow(62, klen),
        enumerated_key(a, klen) == enumerated_key(b, klen),
    ensures
        a == b,
    decreases klen,
{
    reveal(vstd::arithmetic::power::pow);
    if klen > 0 {
        let k1 = (klen - 1) as nat;
        let pk = vstd::arithmetic::power::pow(62, k1);
        assert(vstd::arithmetic::power::pow(62, klen) == 62 * pk);
        let ea = enumerated_key(a, klen);
        let eb = enumerated_key(b, klen);
        assert(ea.last() == eb.last());
        assert(ea.drop_last() =~= enumerated_key(a / 62, k1));
        assert(eb.drop_last() =~= enumerated_key(b / 62, k1));
        assert(a % 62 == b % 62);
        assert(a / 62 < pk) by (nonlinear_arith)
            requires
                a < 62 * pk,
        ;
        assert(b / 62 < pk) by (nonlinear_arith)
            requires
                b < 62 * pk,
        ;
        lemma_enumerated_key_injective(a / 62, b / 62, k1);
        assert(a == 62 * (a / 62) + a % 62) by (nonlinear_arith);
        assert(b == 62 * (b / 62) + b % 62) by (nonlinear_arith);
    }
}

/// The key of `klen` letters and digits that spells `m` in base 62.
fn enumerated(m: usize, klen: usize) -> (r: Vec<u8>)
    ensures
        r@ == enumerated_key(m as nat, klen as nat),
{
    let mut rev: Vec<u8> = Vec::new();
    let mut q: usize = m;
    let mut i: usize = 0;
    while i < klen
        invariant
            i <= klen,
            enumerated_key(m as nat, klen as nat) == enumerated_key(q as nat, (klen - i) as nat)
                + rev@.reverse(),
        decreases klen - i,
    {
        let d: usize = q % 62;
        let b: u8 = if d < 10 {
            0x30u8 + d as u8
        } else if d < 36 {
            0x41u8 + (d - 10) as u8
        } else {
            0x61u8 + (d - 36) as u8
        };
        proof {
            let k = (klen - i) as nat;
            assert(b == alnum_digit(d as int));
            assert(enumerated_key(q as nat, k) == enumerated_key((q / 62) as nat, (k - 1) as nat).push(b));
            assert(rev@.push(b).reverse() =~= seq![b] + rev@.reverse());
            assert(enumerated_key(q as nat, k) + rev@.reverse() =~= enumerated_key(
                (q / 62) as nat,
                (k - 1) as nat,
            ) + rev@.push(b).reverse());
        }
        rev.push(b);
        q = q / 62;
        i = i + 1;
    }
    let mut r: Vec<u8> = Vec::new();
    let mut j: usize = rev.len();
    while j > 0
        invariant
            j <= rev@.len(),
            r@.len() == rev@.len() - j,
            forall|t: int| 0 <= t < r@.len() ==> #[trigger] r@[t] == rev@[rev@.len() - 1 - t],
        decreases j,
    {
        r.push(rev[j - 1]);
        j = j - 1;
    }
    assert(r@ =~= rev@.reverse());
    assert(enumerated_key(q as nat, 0) =~= Seq::<u8>::empty());
    assert(r@ =~= enumerated_key(m as nat, klen as nat));
    r
}

/// Draws alphanumeric keys of length `klen` until `n` distinct ones are
/// held, in the order they were first drawn. If `MAX_DRAWS` draws do not
/// get there, the keys spelling `0, 1, 2, ...` in base 62 that are not yet
/// held complete the set; `None` only when fewer than `n` keys of length
/// `klen` exist.
pub fn generate_unique_keys(rng: &mut Xoshiro512PlusPlus, n: usize, klen: usize) -> (r: Option<Vec<Vec<u8>>>)
    ensures
        n <= vstd::arithmetic::power::pow(62, klen as nat) ==> r is Some,
        r matches Some(ks) ==> {
            &&& ks@.len() == n
            &&& distinct_seqs(views(ks@))
            &&& alphanumeric_keys(views(ks@), klen as nat)
        },
{
    let mut keys = KeyIndex::new();
    let mut draws: u64 = 0;
    while keys.len() < n && draws < MAX_DRAWS
        invariant
            keys.wf(),
            keys.spec_keys().len() <= n,
            distinct_seqs(views(keys.spec_keys())),
            alphanumeric_keys(views(keys.spec_keys()), klen as nat),
        decreases MAX_DRAWS - draws,
    {
        draws = draws + 1;
        let key = rng_alphanumeric(rng, klen);
        if !keys.contains(&key) {
            let ghost before = keys.spec_keys();
            let ghost kv = key@;
            keys.insert(key);
            proof {
                assert(views(keys.spec_keys()) =~= views(before).push(kv));
            }
        }
    }
    // completion in base-62 order
    let mut m: usize = 0;
    while keys.len() < n && m < n
        invariant
            keys.wf(),
            keys.spec_keys().len() <= n,
            m <= n,
            distinct_seqs(views(keys.spec_keys())),
            alphanumeric_keys(views(keys.spec_keys()), klen as nat),
            forall|j: int|
                0 <= j < m ==> views(keys.spec_keys()).contains(
                    #[trigger] enumerated_key(j as nat, klen as nat),
                ),
        decreases n - m,
    {
        let key = enumerated(m, klen);
        proof {
            lemma_enumerated_key_shape(m as nat, klen as nat);
        }
        let ghost before = keys.spec_keys();
        let ghost kv = key@;
        if !keys.contains(&key) {
            keys.insert(key);
            proof {
                assert(views(keys.spec_keys()) =~= views(before).push(kv));
                assert forall|j: int| 0 <= j <= m implies views(keys.spec_keys()).contains(
                    #[trigger] enumerated_key(j as nat, klen as nat),
                ) by {
                    if j < m {
                        let p = choose|p: int| 0 <= p < views(before).len() && views(before)[p]
                            == enumerated_key(j as nat, klen as nat);
                        assert(views(keys.spec_keys())[p] == views(before)[p]);
                    } else {
                        assert(views(keys.spec_keys())[views(before).len() as int] == kv);
                    }
                }
            }
        } else {
            assert(views(keys.spec_keys()).contains(enumerated_key(m as nat, klen as nat)));
        }
        m = m + 1;
    }
    if keys.len() < n {
        proof {
            if n <= vstd::arithmetic::power::pow(62, klen as nat) {
                let pool = Seq::new(n as nat, |j: int| enumerated_key(j as nat, klen as nat));
                assert(distinct_seqs(pool)) by {
                    assert forall|a: int, b: int| 0 <= a < b < pool.len() implies pool[a] != pool[b] by {
                        if pool[a] == pool[b] {
                            lemma_enumerated_key_injective(a as nat, b as nat, klen as nat);
                        }
                    }
                }
                assert forall|q: int| 0 <= q < pool.len() implies views(keys.spec_keys()).contains(
                    #[trigger] pool[q],
                ) by {
                    assert(pool[q] == enumerated_key(q as nat, klen as nat));
                }
                lemma_cover_len(views(keys.spec_keys()), pool);
            }
        }
        return None;
    }
    Some(keys.into_keys())
}

/// A sequence that holds every element of a sequence without duplicates
/// is at least as long.
proof fn lemma_cover_len(out: Seq<Seq<u8>>, pool: Seq<Seq<u8>>)
    requires
        distinct_seqs(pool),
        forall|q: int| 0 <= q < pool.len() ==> out.contains(#[trigger] pool[q]),
    ensures
        out.len() >= pool.len(),
{
    broadcast use vstd::seq_lib::seq_to_set_is_finite;

    assert(pool.no_duplicates()) by {
        assert forall|i: int, j: int|
            0 <= i < pool.len() && 0 <= j < pool.len() && i != j implies pool[i] != pool[j] by {
            if i < j {
            } else {
            }
        }
    }
    pool.unique_seq_to_set();
    out.lemma_cardinality_of_set();
    assert(pool.to_set().subset_of(out.to_set())) by {
        assert forall|x: Seq<u8>| pool.to_set().contains(x) implies out.to_set().contains(x) by {
            let q = choose|q: int| 0 <= q < pool.len() && pool[q] == x;
            assert(out.contains(pool[q]));
        }
    }
    vstd::set_lib::lemma_len_subset(pool.to_set(), out.to_set());
}

/// Draws `count` keys from `pool` with `dist`; a key may repeat.
pub fn sample_keys(
    pool: &Vec<Vec<u8>>,
    dist: &Distribution,
    rng: &mut Xoshiro512PlusPlus,
    count: usize,
) -> (r: Vec<Vec<u8>>)
    requires
        dist.wf(),
        dist.spec_len() == pool@.len(),
    ensures
        r@.len() == count,
        forall|i: int| 0 <= i < count ==> views(pool@).contains(#[trigger] r@[i]@),
{
    let mut out: Vec<Vec<u8>> = Vec::new();
    let mut i: usize = 0;
    while i < count
        invariant
            dist.wf(),
            dist.spec_len() == pool@.len(),
            i <= count,
            out@.len() == i,
            forall|j: int| 0 <= j < i ==> views(pool@).contains(#[trigger] out@[j]@),
        decreases count - i,
    {
        let idx = dist.sample(rng);
        assert(views(pool@)[idx as int] == pool@[idx as int]@);
        out.push(pool[idx].clone());
        i = i + 1;
    }
    out
}

/// Draws keys from a pool of distinct keys with `dist` until `count`
/// distinct ones are held, in the order they were first drawn. If
/// `MAX_DRAWS` draws do not get there, the set is completed with the
/// pool's keys in pool order.
pub fn sample_distinct_keys(
    pool: &Vec<Vec<u8>>,
    dist: &Distribution,
    rng: &mut Xoshiro512PlusPlus,
    count: usize,
) -> (r: Vec<Vec<u8>>)
    requires
        dist.wf(),
        dist.spec_len() == pool@.len(),
        distinct_seqs(views(pool@)),
        count <= pool@.len(),
    ensures
        r@.len() == count,
        distinct_seqs(views(r@)),
        forall|i: int| 0 <= i < count ==> views(pool@).contains(#[trigger] r@[i]@),
{
    let mut out: Vec<Vec<u8>> = Vec::new();
    let mut draws: u64 = 0;
    while out.len() < count && draws < MAX_DRAWS
        invariant
            dist.wf(),
            dist.spec_len() == pool@.len(),
            out@.len() <= count,
            distinct_seqs(views(out@)),
            forall|j: int| 0 <= j < out@.len() ==> views(pool@).contains(#[trigger] out@[j]@),
        decreases MAX_DRAWS - draws,
    {
        draws = draws + 1;
        let idx = dist.sample(rng);
        let key = pool[idx].clone();
        assert(views(pool@)[idx as int] == key@);
        if !contains_key(&out, &key) {
            let ghost before = out@;
            out.push(key);
            proof {
                assert(views(out@) =~= views(before).push(key@));
            }
        }
    }
    complete_in_pool_order(out, pool, count)
}

/// Extends distinct keys of a pool of distinct keys with the pool's keys
/// not yet held, in pool order, up to `count` keys.
pub fn complete_in_pool_order(held: Vec<Vec<u8>>, pool: &Vec<Vec<u8>>, count: usize) -> (r: Vec<Vec<u8>>)
    requires
        distinct_seqs(views(held@)),
        distinct_seqs(views(pool@)),
        forall|i: int| 0 <= i < held@.len() ==> views(pool@).contains(#[trigger] held@[i]@),
        held@.len() <= count <= pool@.len(),
    ensures
        r@.len() == count,
        distinct_seqs(views(r@)),
        forall|i: int| 0 <= i < count ==> views(pool@).contains(#[trigger] r@[i]@),
        forall|i: int| 0 <= i < held@.len() ==> #[trigger] r@[i] == held@[i],
{
    let mut out = held;
    let mut p: usize = 0;
    while out.len() < count && p < pool.len()
        invariant
            out@.len() <= count,
            count <= pool@.len(),
            p <= pool@.len(),
            distinct_seqs(views(pool@)),
            distinct_seqs(views(out@)),
            held@.len() <= out@.len(),
            forall|i: int| 0 <= i < held@.len() ==> #[trigger] out@[i] == held@[i],
            forall|j: int| 0 <= j < out@.len() ==> views(pool@).contains(#[trigger] out@[j]@),
            forall|q: int| 0 <= q < p ==> views(out@).contains(#[trigger] views(pool@)[q]),
        decreases pool@.len() - p,
    {
        let key = pool[p].clone();
        assert(views(pool@)[p as int] == key@);
        let ghost before = out@;
        if !contains_key(&out, &key) {
            out.push(key);
            proof {
                assert(views(out@) =~= views(before).push(key@));
                assert forall|q: int| 0 <= q <= p implies views(out@).contains(
                    #[trigger] views(pool@)[q],
                ) by {
                    if q < p {
                        let w = choose|w: int|
                            0 <= w < views(before).len() && views(before)[w] == views(pool@)[q];
                        assert(views(out@)[w] == views(pool@)[q]);
                    } else {
                        assert(views(out@)[before.len() as int] == views(pool@)[q]);
                    }
                }
            }
        }
        p = p + 1;
    }
    proof {
        if out@.len() < count {
            lemma_cover_len(views(out@), views(pool@));
        }
    }
    out
}

/// The strings of distinct alphanumeric keys: each string holds the key's
/// bytes as characters, is as long in bytes, and no two are equal.
/// A name whose UTF-8 bytes are `len` ASCII letters and digits.
pub open spec fn alphanumeric_name(s: Seq<char>, len: nat) -> bool {
    let b = vstd::utf8::encode_utf8(s);
    b.len() == len && all_alphanumeric(b)
}

pub(crate) fn keys_as_strings(keys: Vec<Vec<u8>>, Ghost(klen): Ghost<nat>) -> (r: Vec<String>)
    requires
        alphanumeric_keys(views(keys@), klen),
        distinct_seqs(views(keys@)),
    ensures
        r@.len() == keys@.len(),
        forall|i: int| 0 <= i < r@.len() ==> (#[trigger] r@[i])@ == ascii_chars(keys@[i]@),
        forall|i: int|
            0 <= i < r@.len() ==> vstd::utf8::encode_utf8((#[trigger] r@[i])@).len() == klen,
        forall|i: int| 0 <= i < r@.len() ==> alphanumeric_name((#[trigger] r@[i])@, klen),
        forall|i: int, j: int| 0 <= i < j < r@.len() ==> r@[i]@ != r@[j]@,
{
    let ghost nv = views(keys@);
    let mut out: Vec<String> = Vec::new();
    let mut i: usize = 0;
    while i < keys.len()
        invariant
            i <= keys@.len(),
            nv == views(keys@),
            alphanumeric_keys(nv, klen),
            out@.len() == i,
            forall|j: int| 0 <= j < i ==> (#[trigger] out@[j])@ == ascii_chars(nv[j]),
            forall|j: int|
                0 <= j < i ==> vstd::utf8::encode_utf8((#[trigger] out@[j])@).len() == klen,
            forall|j: int| 0 <= j < i ==> vstd::utf8::encode_utf8((#[trigger] out@[j])@) == nv[j],
        decreases keys@.len() - i,
    {
        let n = keys[i].clone();
        assert(n@ == nv[i as int]);
        assert forall|q: int| 0 <= q < n@.len() implies #[trigger] n@[q] < 0x80 by {
            assert(nv[i as int][q] == n@[q]);
            assert(is_alphanumeric(n@[q]));
        }
        out.push(ascii_string(n));
        i = i + 1;
    }
    proof {
        assert forall|i: int, j: int| 0 <= i < j < out@.len() implies out@[i]@ != out@[j]@ by {
            if out@[i]@ == out@[j]@ {
                assert(ascii_chars(nv[i]).len() == nv[i].len());
                assert forall|q: int| 0 <= q < nv[i].len() implies nv[i][q] == nv[j][q] by {
                    assert(ascii_chars(nv[i])[q] == ascii_chars(nv[j])[q]);
                    assert((nv[i][q] as char) == (nv[j][q] as char));
                }
                assert(nv[i] =~= nv[j]);
            }
        }
    }
    out
}

} // verus!

use rand::distributions::{Alphanumeric, Distribution, Uniform};
use rand::seq::SliceRandom;
use rand::{Rng, RngCore, SeedableRng};
use rand_distr::WeightedAliasIndex;
use rand_xoshiro::{Seed512, Xoshiro512PlusPlus};
use vstd::prelude::*;
use zipf::ZipfDistribution;

verus! {

#[verifier::external_type_specification]
#[verifier::external_body]
pub struct ExXoshiro512PlusPlus(Xoshiro512PlusPlus);

#[verifier::external_type_specification]
#[verifier::external_body]
pub struct ExZipfDistribution(ZipfDistribution);

/// `Clone::clone` of `zipf::ZipfDistribution` (a derived clone of its
/// fields). Nothing is said of the copy, which Verus cannot look into.
pub assume_specification[ <ZipfDistribution as Clone>::clone ](d: &ZipfDistribution) -> ZipfDistribution;

/// A weighted choice among `0..len`: holds a `WeightedAliasIndex<usize>`
/// of `rand_distr`, whose declaration Verus refuses (its generic parameter
/// is bound by a trait of that crate).
#[verifier::external_body]
pub struct WeightedChoice {
    table: WeightedAliasIndex<usize>,
}

/// The weights a choice was made from, in order: index `i` is drawn with
/// weight `weights[i]`.
pub uninterp spec fn weighted_choice_weights(c: WeightedChoice) -> Seq<usize>;

/// The number of weights a choice was made from.
pub open spec fn weighted_choice_len(c: WeightedChoice) -> nat {
    weighted_choice_weights(c).len()
}

impl Clone for WeightedChoice {
    /// `Clone::clone` of `WeightedAliasIndex` (a derived clone of its
    /// tables): a choice made from the same weights.
    #[verifier::external_body]
    fn clone(&self) -> (r: Self)
        ensures
            weighted_choice_weights(r) == weighted_choice_weights(*self),
    {
        WeightedChoice { table: self.table.clone() }
    }
}

/// Whether a byte is an ASCII letter or digit.
pub open spec fn is_alphanumeric(b: u8) -> bool {
    (0x30 <= b <= 0x39) || (0x41 <= b <= 0x5a) || (0x61 <= b <= 0x7a)
}

/// `Xoshiro512PlusPlus::from_seed` of `rand_xoshiro`: the generator whose
/// state is the 64-byte seed. Nothing is said of the generator's state.
#[verifier::external_body]
pub(crate) fn rng_from_seed(seed: [u8; 64]) -> Xoshiro512PlusPlus {
    Xoshiro512PlusPlus::from_seed(Seed512(seed))
}

/// `RngCore::fill_bytes` of the generator on a fresh buffer of `n` bytes:
/// `n` pseudorandom bytes.
#[verifier::external_body]
pub(crate) fn rng_bytes(rng: &mut Xoshiro512PlusPlus, n: usize) -> (r: Vec<u8>)
    ensures
        r@.len() == n,
{
    let mut v = vec![0u8; n];
    rng.fill_bytes(&mut v);
    v
}

/// `RngCore::fill_bytes` of the generator on a 64-byte seed.
#[verifier::external_body]
pub(crate) fn rng_seed(rng: &mut Xoshiro512PlusPlus) -> [u8; 64] {
    let mut seed = [0u8; 64];
    rng.fill_bytes(&mut seed);
    seed
}

/// `Rng::gen::<i64>` of the generator: any `i64`.
#[verifier::external_body]
pub(crate) fn rng_i64(rng: &mut Xoshiro512PlusPlus) -> i64 {
    rng.gen::<i64>()
}

/// `Rng::gen::<u32>` of the generator: any `u32`.
#[verifier::external_body]
pub(crate) fn rng_u32(rng: &mut Xoshiro512PlusPlus) -> u32 {
    rng.gen::<u32>()
}

/// `Uniform::new(0, n)` of `rand` sampled once with the generator: an index
/// below `n`. `Uniform::new` panics on an empty range, hence `n > 0`.
#[verifier::external_body]
pub(crate) fn uniform_index(rng: &mut Xoshiro512PlusPlus, n: usize) -> (r: usize)
    requires
        n > 0,
    ensures
        r < n,
{
    Uniform::new(0, n).sample(rng)
}

/// `Rng::gen_range(lo..=hi)` on `i32`: a value in `lo..=hi`; the range must
/// not be empty, or `gen_range` panics.
#[verifier::external_body]
pub(crate) fn rng_range_i32(rng: &mut Xoshiro512PlusPlus, lo: i32, hi: i32) -> (r: i32)
    requires
        lo <= hi,
    ensures
        lo <= r <= hi,
{
    rng.gen_range(lo..=hi)
}

/// `Rng::gen_range(lo..=hi)` on `u8`: a value in `lo..=hi`; the range must
/// not be empty, or `gen_range` panics.
#[verifier::external_body]
pub(crate) fn rng_range_u8(rng: &mut Xoshiro512PlusPlus, lo: u8, hi: u8) -> (r: u8)
    requires
        lo <= hi,
    ensures
        lo <= r <= hi,
{
    rng.gen_range(lo..=hi)
}

/// `len` draws of `rand`'s `Alphanumeric` distribution: bytes uniformly
/// drawn from the ASCII letters and digits.
#[verifier::external_body]
pub(crate) fn rng_alphanumeric(rng: &mut Xoshiro512PlusPlus, len: usize) -> (r: Vec<u8>)
    ensures
        r@.len() == len,
        forall|i: int| 0 <= i < len ==> is_alphanumeric(#[trigger] r@[i]),
{
    (&mut *rng).sample_iter(&Alphanumeric).take(len).collect::<Vec<u8>>()
}

/// `ZipfDistribution::sample` of the `zipf` crate: a rank, 1 for the most
/// frequent element. The crate clamps the rank below at 1. It also clamps it
/// above at the number of elements, but as an `f64`, which rounds counts
/// above 2^53 (up, for some), so no upper bound is stated here; the
/// distribution keeps no count this item could name either.
#[verifier::external_body]
pub(crate) fn zipf_rank(dist: &ZipfDistribution, rng: &mut Xoshiro512PlusPlus) -> (r: usize)
    ensures
        r >= 1,
{
    dist.sample(rng)
}

/// `WeightedAliasIndex::new` of `rand_distr` on `usize` weights: refused
/// (`None`) when there are no weights, more than `u32::MAX` of them, a
/// weight above `usize::MAX / len`, or when all weights are zero; the
/// choice made draws index `i` with weight `weights[i]`.
#[verifier::external_body]
pub(crate) fn weighted_choice_new(weights: Vec<usize>) -> (r: Option<WeightedChoice>)
    ensures
        r is Some <==> {
            &&& 0 < weights@.len() <= u32::MAX
            &&& forall|i: int|
                0 <= i < weights@.len() ==> #[trigger] weights@[i] <= (usize::MAX as nat)
                    / weights@.len()
            &&& exists|i: int| 0 <= i < weights@.len() && #[trigger] weights@[i] > 0
        },
        r matches Some(c) ==> weighted_choice_weights(c) == weights@,
{
    match WeightedAliasIndex::new(weights) {
        Ok(table) => Some(WeightedChoice { table }),
        Err(_) => None,
    }
}

/// `WeightedAliasIndex::sample` of `rand_distr`: the drawn index is either
/// a uniformly drawn candidate or its alias, both below the number of
/// weights. An index of weight zero is never drawn: its odds of being kept
/// are zero, so its alias is taken, and `new` pairs every index whose odds
/// are below the weight sum with an alias of positive weight (the odds, the
/// weights times their number, sum to the number of indices times the
/// weight sum, in exact integer arithmetic).
#[verifier::external_body]
pub(crate) fn weighted_choice_sample(c: &WeightedChoice, rng: &mut Xoshiro512PlusPlus) -> (r: usize)
    ensures
        r < weighted_choice_len(*c),
        weighted_choice_weights(*c)[r as int] > 0,
{
    c.table.sample(rng)
}

/// `SliceRandom::shuffle` of `rand` with the generator: a Fisher-Yates
/// shuffle, so the result is a permutation of the input.
#[verifier::external_body]
pub(crate) fn rng_shuffle_bytes(rng: &mut Xoshiro512PlusPlus, v: &mut Vec<u8>)
    ensures
        final(v)@.len() == old(v)@.len(),
        final(v)@.to_multiset() == old(v)@.to_multiset(),
{
    v.shuffle(rng);
}

/// `SliceRandom::shuffle` of `rand`, driven by `rand::thread_rng`:
/// a Fisher-Yates shuffle, so the result is a permutation of the input.
/// Which permutation depends on the thread's random state and is left open.
#[verifier::external_body]
pub(crate) fn shuffle_with_thread_rng(v: &mut Vec<u64>)
    ensures
        final(v)@.len() == old(v)@.len(),
        final(v)@.to_multiset() == old(v)@.to_multiset(),
{
    v.shuffle(&mut rand::thread_rng());
}

} // verus!

use crate::config::workload as config;
use crate::workload::rng::{uniform_index, zipf_rank};
use rand_xoshiro::Xoshiro512PlusPlus;
use vstd::prelude::*;
use zipf::ZipfDistribution;

verus! {

#[derive(Clone)]
enum Sampler {
    Uniform,
    Zipf(ZipfDistribution),
}

/// A distribution over the indices `0..len`: uniform, or Zipf (index 1 the
/// most frequent, then 2, and so on; index 0 is drawn as often as the rarest
/// rank).
#[derive(Clone)]
pub struct Distribution {
    sampler: Sampler,
    n: usize,
}

impl Distribution {
    /// The number of indices drawn from.
    pub closed spec fn spec_len(&self) -> nat {
        self.n as nat
    }

    /// Whether the distribution is uniform.
    pub closed spec fn is_uniform(&self) -> bool {
        self.sampler is Uniform
    }

    /// A distribution always draws from at least one index.
    pub open spec fn wf(&self) -> bool {
        self.spec_len() > 0
    }

    /// The uniform distribution over `0..n`.
    pub fn uniform(n: usize) -> (r: Self)
        requires
            n > 0,
        ensures
            r.spec_len() == n,
            r.wf(),
            r.is_uniform(),
    {
        Distribution { sampler: Sampler::Uniform, n }
    }

    /// The Zipf distribution over `0..n`, given the `zipf` crate's
    /// distribution over the ranks `1..=n` (made with the exponent that
    /// the caller chose).
    pub fn zipf(dist: ZipfDistribution, n: usize) -> (r: Self)
        requires
            n > 0,
        ensures
            r.spec_len() == n,
            r.wf(),
            !r.is_uniform(),
    {
        Distribution { sampler: Sampler::Zipf(dist), n }
    }

    /// The number of indices drawn from.
    pub fn len(&self) -> (r: usize)
        ensures
            r == self.spec_len(),
    {
        self.n
    }

    /// Draws an index. A Zipf rank `k` (from 1) is taken as the index `k`
    /// itself; the rank `n`, one past the last index, is taken as index 0,
    /// the one index no other rank reaches. (For `n` above 2^53 the `zipf`
    /// crate, which counts in `f64`, may give a rank above `n`; it too is
    /// taken as index 0.)
    pub fn sample(&self, rng: &mut Xoshiro512PlusPlus) -> (r: usize)
        requires
            self.wf(),
        ensures
            r < self.spec_len(),
    {
        match &self.sampler {
            Sampler::Uniform => uniform_index(rng, self.n),
            Sampler::Zipf(dist) => {
                let k = zipf_rank(dist, rng);
                if k < self.n {
                    k
                } else {
                    0
                }
            },
        }
    }
}

/// Which of the two distributions a configuration names.
pub fn is_zipf(d: config::Distribution) -> (r: bool)
    ensures
        r == (d == config::Distribution::Zipf),
{
    match d {
        config::Distribution::Zipf => true,
        config::Distribution::Uniform => false,
    }
}

} // verus!

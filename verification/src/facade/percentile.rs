use vstd::prelude::*;

verus! {

/// The fixed-point representation of the 100th percentile.
pub const MAX_PERCENTILE: u32 = 1000000000u32;

/// A percentile, held as a fixed-point number in `0..=MAX_PERCENTILE`
/// where `MAX_PERCENTILE` stands for 1 and `0` for 0.
#[derive(Clone, Copy, Debug, PartialEq, Eq, PartialOrd, Ord)]
pub struct Percentile {
    val: u32,
}

impl View for Percentile {
    type V = u32;

    open spec fn view(&self) -> u32 {
        self.spec_val()
    }
}

impl Percentile {
    /// The fixed-point value held.
    pub closed spec fn spec_val(self) -> u32 {
        self.val
    }

    proof fn lemma_spec_new(val: u32)
        ensures
            val <= MAX_PERCENTILE ==> (Self::spec_new(val) matches Some(p) && p@ == val),
            val > MAX_PERCENTILE ==> Self::spec_new(val) is None,
    {
    }

    #[verifier::type_invariant]
    closed spec fn in_range(self) -> bool {
        self.val <= MAX_PERCENTILE
    }

    /// The percentile `new` makes from `val`: `None` above `MAX_PERCENTILE`.
    pub closed spec fn spec_new(val: u32) -> Option<Percentile> {
        if val > MAX_PERCENTILE {
            None
        } else {
            Some(Percentile { val })
        }
    }

    /// Makes a percentile from its fixed-point value; `None` when the value
    /// is above `MAX_PERCENTILE`.
    pub fn new(val: u32) -> (r: Option<Self>)
        ensures
            r == Self::spec_new(val),
            r is Some <==> val <= MAX_PERCENTILE,
            r matches Some(p) ==> p@ == val,
    {
        if val > MAX_PERCENTILE {
            return None;
        }
        Some(Percentile { val })
    }

    /// The fixed-point value.
    pub fn into_inner(self) -> (r: u32)
        ensures
            r == self@,
            r <= MAX_PERCENTILE,
    {
        proof {
            use_type_invariant(self);
        }
        self.val
    }

    /// Two percentiles with the same value are the same.
    proof fn lemma_fields_equal(self, other: Self)
        requires
            self@ == other@,
        ensures
            self == other,
    {
    }

    /// The 0th percentile, as a value.
    pub closed spec fn spec_minimum() -> Percentile {
        Percentile { val: 0 }
    }

    /// The 100th percentile, as a value.
    pub closed spec fn spec_maximum() -> Percentile {
        Percentile { val: MAX_PERCENTILE }
    }

    /// The 0th percentile.
    pub fn minimum() -> (r: Self)
        ensures
            r@ == 0,
            r == Self::spec_minimum(),
            Self::spec_new(0) == Some(r),
    {
        Percentile { val: 0 }
    }

    /// The 100th percentile.
    pub fn maximum() -> (r: Self)
        ensures
            r@ == MAX_PERCENTILE,
            r == Self::spec_maximum(),
            Self::spec_new(MAX_PERCENTILE) == Some(r),
    {
        Percentile { val: MAX_PERCENTILE }
    }

    /// The 0.01st percentile.
    pub fn p001() -> (r: Self)
        ensures
            r@ == MAX_PERCENTILE / 10000,
    {
        Percentile { val: Self::maximum().val / 10000 }
    }

    /// The 0.1st percentile.
    pub fn p01() -> (r: Self)
        ensures
            r@ == MAX_PERCENTILE / 1000,
    {
        Percentile { val: Self::maximum().val / 1000 }
    }

    /// The 1st percentile.
    pub fn p1() -> (r: Self)
        ensures
            r@ == MAX_PERCENTILE / 100,
    {
        Percentile { val: Self::maximum().val / 100 }
    }

    /// The 5th percentile.
    pub fn p5() -> (r: Self)
        ensures
            r@ == MAX_PERCENTILE / 20,
    {
        Percentile { val: Self::maximum().val / 20 }
    }

    /// The 10th percentile.
    pub fn p10() -> (r: Self)
        ensures
            r@ == MAX_PERCENTILE / 10,
    {
        Percentile { val: Self::maximum().val / 10 }
    }

    /// The 25th percentile.
    pub fn p25() -> (r: Self)
        ensures
            r@ == MAX_PERCENTILE / 4,
    {
        Percentile { val: Self::maximum().val / 4 }
    }

    /// The 50th percentile.
    pub fn p50() -> (r: Self)
        ensures
            r@ == MAX_PERCENTILE / 2,
    {
        Percentile { val: Self::maximum().val / 2 }
    }

    /// The 75th percentile: three times the 25th.
    pub fn p75() -> (r: Self)
        ensures
            r@ == (MAX_PERCENTILE / 4) * 3,
    {
        Percentile { val: Self::p25().val * 3 }
    }

    /// The 90th percentile: nine times the 10th.
    pub fn p90() -> (r: Self)
        ensures
            r@ == (MAX_PERCENTILE / 10) * 9,
    {
        Percentile { val: Self::p10().val * 9 }
    }

    /// The 95th percentile: the maximum less the 5th.
    pub fn p95() -> (r: Self)
        ensures
            r@ == MAX_PERCENTILE - MAX_PERCENTILE / 20,
    {
        Percentile { val: Self::maximum().val - Self::p5().val }
    }

    /// The 99th percentile: the maximum less the 1st.
    pub fn p99() -> (r: Self)
        ensures
            r@ == MAX_PERCENTILE - MAX_PERCENTILE / 100,
    {
        Percentile { val: Self::maximum().val - Self::p1().val }
    }

    /// The 99.9th percentile: the maximum less the 0.1st.
    pub fn p999() -> (r: Self)
        ensures
            r@ == MAX_PERCENTILE - MAX_PERCENTILE / 1000,
    {
        Percentile { val: Self::maximum().val - Self::p01().val }
    }

    /// The 99.99th percentile: the maximum less the 0.01st.
    pub fn p9999() -> (r: Self)
        ensures
            r@ == MAX_PERCENTILE - MAX_PERCENTILE / 10000,
    {
        Percentile { val: Self::maximum().val - Self::p001().val }
    }
}

/// The named percentiles are ordered as their names say:
/// minimum <= p001 <= p01 <= p1 <= p5 <= p10 <= p25 <= p50 <= p75 <= p90
/// <= p95 <= p99 <= p999 <= p9999 <= maximum, and each upper named
/// percentile is the maximum less its lower mirror.
pub proof fn lemma_named_percentiles_ordered()
    ensures
        0 <= MAX_PERCENTILE / 10000 <= MAX_PERCENTILE / 1000 <= MAX_PERCENTILE / 100
            <= MAX_PERCENTILE / 20 <= MAX_PERCENTILE / 10 <= MAX_PERCENTILE / 4
            <= MAX_PERCENTILE / 2 <= (MAX_PERCENTILE / 4) * 3 <= (MAX_PERCENTILE / 10) * 9
            <= MAX_PERCENTILE - MAX_PERCENTILE / 20 <= MAX_PERCENTILE - MAX_PERCENTILE / 100
            <= MAX_PERCENTILE - MAX_PERCENTILE / 1000 <= MAX_PERCENTILE - MAX_PERCENTILE / 10000
            <= MAX_PERCENTILE,
        (MAX_PERCENTILE / 4) * 3 + MAX_PERCENTILE / 4 == MAX_PERCENTILE,
        (MAX_PERCENTILE / 10) * 9 + MAX_PERCENTILE / 10 == MAX_PERCENTILE,
{
}

/// Making a percentile from a value in range and reading it back gives
/// the value; out of range, nothing is made.
pub proof fn lemma_new_into_inner_roundtrip(val: u32)
    ensures
        val <= MAX_PERCENTILE ==> (Percentile::spec_new(val) matches Some(p) && p@ == val),
        val > MAX_PERCENTILE ==> Percentile::spec_new(val) is None,
{
    Percentile::lemma_spec_new(val);
}

/// A percentile is its fixed-point value: two percentiles with the same
/// value are the same percentile, and they order as their values do.
pub proof fn lemma_percentile_is_its_value(a: Percentile, b: Percentile)
    requires
        a@ == b@,
    ensures
        a == b,
{
    a.lemma_fields_equal(b);
}

/// `new` of `0` and of `MAX_PERCENTILE` gives the minimum and the maximum,
/// and every percentile lies between them.
pub proof fn lemma_bounds(p: Percentile)
    requires
        Percentile::spec_new(p@) == Some(p),
    ensures
        Percentile::spec_new(0) == Some(Percentile::spec_minimum()),
        Percentile::spec_new(MAX_PERCENTILE) == Some(Percentile::spec_maximum()),
        Percentile::spec_minimum()@ <= p@ <= Percentile::spec_maximum()@,
{
    Percentile::lemma_spec_new(p@);
}

} // verus!

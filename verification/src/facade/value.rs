use vstd::prelude::*;
use vstd::std_specs::convert::FromSpec;
use vstd::std_specs::convert::FromSpecImpl;

verus! {

/// A value recorded into a metric: signed for gauges, unsigned for counters
/// and histograms.
#[derive(Clone, Copy, Debug, PartialEq, Eq, Structural)]
pub enum MetricValue {
    Signed(i64),
    Unsigned(u64),
}

impl MetricValue {
    /// The number the value stands for.
    pub open spec fn spec_value(self) -> int {
        match self {
            MetricValue::Signed(x) => x as int,
            MetricValue::Unsigned(x) => x as int,
        }
    }

    /// What `as_u64` gives: the value when it is not negative.
    pub open spec fn spec_as_u64(self) -> Option<u64> {
        if self.spec_value() >= 0 {
            Some(self.spec_value() as u64)
        } else {
            None
        }
    }

    /// What `as_i64` gives: the value when it is not above `i64::MAX`.
    pub open spec fn spec_as_i64(self) -> Option<i64> {
        if self.spec_value() <= i64::MAX {
            Some(self.spec_value() as i64)
        } else {
            None
        }
    }

    /// The value as a `u64`, when it is not negative.
    pub fn as_u64(self) -> (r: Option<u64>)
        ensures
            r == self.spec_as_u64(),
            r is Some <==> self.spec_value() >= 0,
            r matches Some(x) ==> x as int == self.spec_value(),
    {
        match self {
            MetricValue::Signed(x) => {
                if x >= 0 {
                    Some(x as u64)
                } else {
                    None
                }
            },
            MetricValue::Unsigned(x) => Some(x),
        }
    }

    /// The value as an `i64`, when it is not above `i64::MAX`.
    pub fn as_i64(self) -> (r: Option<i64>)
        ensures
            r == self.spec_as_i64(),
            r is Some <==> self.spec_value() <= i64::MAX,
            r matches Some(x) ==> x as int == self.spec_value(),
    {
        match self {
            MetricValue::Unsigned(x) => {
                if x > 0x7fff_ffff_ffff_ffffu64 {
                    None
                } else {
                    Some(x as i64)
                }
            },
            MetricValue::Signed(x) => Some(x),
        }
    }

    /// The value's bits read as a `u64`: a negative value wraps around.
    pub fn as_u64_unchecked(self) -> (r: u64)
        ensures
            self.spec_value() >= 0 ==> r as int == self.spec_value(),
            self.spec_value() < 0 ==> r as int == self.spec_value() + 0x1_0000_0000_0000_0000,
    {
        match self {
            MetricValue::Signed(x) => {
                assert(x < 0 ==> (x as u64) as int == x + 0x1_0000_0000_0000_0000) by (bit_vector);
                assert(x >= 0 ==> (x as u64) as int == x) by (bit_vector);
                #[verifier::truncate]
                (x as u64)
            },
            MetricValue::Unsigned(x) => x,
        }
    }

    /// The value's bits read as an `i64`: a value above `i64::MAX` wraps
    /// around.
    pub fn as_i64_unchecked(self) -> (r: i64)
        ensures
            self.spec_value() <= i64::MAX ==> r as int == self.spec_value(),
            self.spec_value() > i64::MAX ==> r as int == self.spec_value() - 0x1_0000_0000_0000_0000,
    {
        match self {
            MetricValue::Signed(x) => x,
            MetricValue::Unsigned(x) => {
                assert(x > 0x7fff_ffff_ffff_ffffu64 ==> (x as i64) as int == x - 0x1_0000_0000_0000_0000)
                    by (bit_vector);
                assert(x <= 0x7fff_ffff_ffff_ffffu64 ==> (x as i64) as int == x) by (bit_vector);
                #[verifier::truncate]
                (x as i64)
            },
        }
    }
}

/// Every value has at least one of the two checked readings, and lies
/// between `i64::MIN` and `u64::MAX`.
pub proof fn lemma_some_reading_holds(v: MetricValue)
    ensures
        v.spec_value() >= 0 || v.spec_value() <= i64::MAX,
        i64::MIN <= v.spec_value() <= u64::MAX,
{
}

/// Reading back a value made from an unsigned integer gives that integer,
/// and so does reading back one made from a signed integer; the unsigned
/// reading of a made-from-unsigned value always succeeds.
pub proof fn lemma_from_then_read(u: u64, i: i64)
    ensures
        <MetricValue as FromSpec<u64>>::from_spec(u).spec_as_u64() == Some(u),
        <MetricValue as FromSpec<i64>>::from_spec(i).spec_as_i64() == Some(i),
        i >= 0 ==> <MetricValue as FromSpec<i64>>::from_spec(i).spec_as_u64() == Some(
            i as u64,
        ),
        u <= i64::MAX ==> <MetricValue as FromSpec<u64>>::from_spec(u).spec_as_i64() == Some(
            u as i64,
        ),
{
}

impl From<u8> for MetricValue {
    fn from(v: u8) -> (r: Self) {
        MetricValue::Unsigned(v as u64)
    }
}

impl FromSpecImpl<u8> for MetricValue {
    open spec fn obeys_from_spec() -> bool {
        true
    }

    open spec fn from_spec(v: u8) -> Self {
        MetricValue::Unsigned(v as u64)
    }
}

impl From<u16> for MetricValue {
    fn from(v: u16) -> (r: Self) {
        MetricValue::Unsigned(v as u64)
    }
}

impl FromSpecImpl<u16> for MetricValue {
    open spec fn obeys_from_spec() -> bool {
        true
    }

    open spec fn from_spec(v: u16) -> Self {
        MetricValue::Unsigned(v as u64)
    }
}

impl From<u32> for MetricValue {
    fn from(v: u32) -> (r: Self) {
        MetricValue::Unsigned(v as u64)
    }
}

impl FromSpecImpl<u32> for MetricValue {
    open spec fn obeys_from_spec() -> bool {
        true
    }

    open spec fn from_spec(v: u32) -> Self {
        MetricValue::Unsigned(v as u64)
    }
}

impl From<u64> for MetricValue {
    fn from(v: u64) -> (r: Self) {
        MetricValue::Unsigned(v as u64)
    }
}

impl FromSpecImpl<u64> for MetricValue {
    open spec fn obeys_from_spec() -> bool {
        true
    }

    open spec fn from_spec(v: u64) -> Self {
        MetricValue::Unsigned(v as u64)
    }
}

impl From<i8> for MetricValue {
    fn from(v: i8) -> (r: Self) {
        MetricValue::Signed(v as i64)
    }
}

impl FromSpecImpl<i8> for MetricValue {
    open spec fn obeys_from_spec() -> bool {
        true
    }

    open spec fn from_spec(v: i8) -> Self {
        MetricValue::Signed(v as i64)
    }
}

impl From<i16> for MetricValue {
    fn from(v: i16) -> (r: Self) {
        MetricValue::Signed(v as i64)
    }
}

impl FromSpecImpl<i16> for MetricValue {
    open spec fn obeys_from_spec() -> bool {
        true
    }

    open spec fn from_spec(v: i16) -> Self {
        MetricValue::Signed(v as i64)
    }
}

impl From<i32> for MetricValue {
    fn from(v: i32) -> (r: Self) {
        MetricValue::Signed(v as i64)
    }
}

impl FromSpecImpl<i32> for MetricValue {
    open spec fn obeys_from_spec() -> bool {
        true
    }

    open spec fn from_spec(v: i32) -> Self {
        MetricValue::Signed(v as i64)
    }
}

impl From<i64> for MetricValue {
    fn from(v: i64) -> (r: Self) {
        MetricValue::Signed(v as i64)
    }
}

impl FromSpecImpl<i64> for MetricValue {
    open spec fn obeys_from_spec() -> bool {
        true
    }

    open spec fn from_spec(v: i64) -> Self {
        MetricValue::Signed(v as i64)
    }
}

} // verus!

use bytes::Bytes;
use vstd::prelude::*;

verus! {

#[verifier::external_type_specification]
#[verifier::external_body]
pub struct ExBytes(Bytes);

/// The bytes a `bytes::Bytes` buffer holds.
pub uninterp spec fn bytes_view(b: Bytes) -> Seq<u8>;

/// `Clone::clone` of `bytes::Bytes`: another handle on the same bytes.
pub assume_specification[ <bytes::Bytes as Clone>::clone ](b: &bytes::Bytes) -> (r: bytes::Bytes)
    ensures
        bytes_view(r) == bytes_view(*b),
;

/// `Bytes::from(Vec<u8>)` of the `bytes` crate: a buffer holding the
/// vector's bytes.
#[verifier::external_body]
pub(crate) fn bytes_from_vec(v: Vec<u8>) -> (r: Bytes)
    ensures
        bytes_view(r) == v@,
{
    Bytes::from(v)
}

/// `Bytes::len`: the number of bytes held.
#[verifier::external_body]
pub(crate) fn bytes_len(b: &Bytes) -> (r: usize)
    ensures
        r == bytes_view(*b).len(),
{
    b.len()
}

/// `Bytes::slice(start..end)`: a buffer sharing the bytes from `start` to
/// `end`; the range must lie within the buffer, or `slice` panics.
#[verifier::external_body]
pub(crate) fn bytes_slice(b: &Bytes, start: usize, end: usize) -> (r: Bytes)
    requires
        start <= end <= bytes_view(*b).len(),
    ensures
        bytes_view(r) == bytes_view(*b).subrange(start as int, end as int),
{
    b.slice(start..end)
}

/// The decimal digits of `n`, most significant first, as ASCII bytes.
pub open spec fn decimal_digits(n: nat) -> Seq<u8>
    decreases n,
{
    if n < 10 {
        seq![(0x30 + n) as u8]
    } else {
        decimal_digits(n / 10).push((0x30 + n % 10) as u8)
    }
}

/// The decimal text of `n`, with a leading `-` when it is negative.
pub open spec fn decimal_text(n: int) -> Seq<u8> {
    if n < 0 {
        seq![0x2du8] + decimal_digits((-n) as nat)
    } else {
        decimal_digits(n as nat)
    }
}

/// Appends the decimal digits of `n`.
fn push_decimal_digits(n: u64, out: &mut Vec<u8>)
    ensures
        final(out)@ == old(out)@ + decimal_digits(n as nat),
    decreases n,
{
    if n >= 10 {
        push_decimal_digits(n / 10, out);
    }
    let d: u8 = (n % 10) as u8;
    out.push(0x30u8 + d);
    proof {
        if n >= 10 {
            assert(final(out)@ =~= old(out)@ + decimal_digits(n as nat));
        } else {
            assert(final(out)@ =~= old(out)@ + decimal_digits(n as nat));
        }
    }
}

/// The decimal text of `n`, as `format!("{}", n)` writes it.
pub fn i64_decimal(n: i64) -> (r: Vec<u8>)
    ensures
        r@ == decimal_text(n as int),
{
    let mut out: Vec<u8> = Vec::new();
    if n < 0 {
        out.push(0x2du8);
        let m: u64 = ((-(n + 1)) as u64) + 1;
        push_decimal_digits(m, &mut out);
    } else {
        push_decimal_digits(n as u64, &mut out);
    }
    assert(out@ =~= decimal_text(n as int));
    out
}

/// The characters of ASCII bytes.
pub open spec fn ascii_chars(s: Seq<u8>) -> Seq<char> {
    s.map_values(|b: u8| b as char)
}

/// `String::from_utf8` of std on ASCII bytes: ASCII is valid UTF-8, the
/// string keeps the bytes, and each byte decodes to the character of the
/// same code.
#[verifier::external_body]
pub(crate) fn ascii_string(v: Vec<u8>) -> (r: String)
    requires
        forall|i: int| 0 <= i < v@.len() ==> #[trigger] v@[i] < 0x80,
    ensures
        r@ == ascii_chars(v@),
        vstd::utf8::encode_utf8(r@) == v@,
{
    String::from_utf8(v).unwrap()
}

/// Every digit of a decimal text is an ASCII digit.
pub proof fn lemma_decimal_digits_ascii(n: nat)
    ensures
        forall|i: int| 0 <= i < decimal_digits(n).len() ==> 0x30 <= #[trigger] decimal_digits(n)[i] <= 0x39,
    decreases n,
{
    if n >= 10 {
        lemma_decimal_digits_ascii(n / 10);
        let d = decimal_digits(n / 10);
        assert(decimal_digits(n) == d.push((0x30 + n % 10) as u8));
        assert forall|i: int| 0 <= i < decimal_digits(n).len() implies 0x30 <= #[trigger] decimal_digits(n)[i] <= 0x39 by {
            if i < d.len() {
                assert(decimal_digits(n)[i] == d[i]);
            }
        }
    }
}

} // verus!

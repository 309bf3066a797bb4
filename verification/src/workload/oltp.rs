use crate::config::workload as config;
use crate::workload::buf::{ascii_chars, ascii_string, decimal_digits, decimal_text, i64_decimal, lemma_decimal_digits_ascii};
use crate::workload::rng::{rng_range_i32, rng_range_u8};
use crate::workload::ClientWorkItemKind;
use rand_xoshiro::Xoshiro512PlusPlus;
use vstd::prelude::*;

verus! {

/// An OLTP workload: point selects on `tables` tables of `keys` rows each.
#[derive(Clone, Copy, Debug)]
pub struct Oltp {
    pub tables: u8,
    pub keys: i32,
}

impl Oltp {
    /// The workload of an OLTP configuration.
    pub fn new(oltp: &config::oltp::Oltp) -> (r: Self)
        ensures
            r.tables == oltp.tables,
            r.keys == oltp.keys,
    {
        Oltp { tables: oltp.tables(), keys: oltp.keys() }
    }
}

/// A point select: `SELECT c FROM <table> WHERE id=<id>`.
#[derive(Clone, Debug, PartialEq)]
pub struct PointSelect {
    pub id: i32,
    pub table: String,
}

/// A request of the OLTP workload.
#[derive(Clone, Debug, PartialEq)]
pub enum OltpRequest {
    PointSelect(PointSelect),
}

/// The name of the `n`th table: `sbtest` and the decimal digits of `n`.
pub open spec fn table_name(n: int) -> Seq<char> {
    ascii_chars(seq![0x73u8, 0x62u8, 0x74u8, 0x65u8, 0x73u8, 0x74u8] + decimal_text(n))
}

/// The name of the `n`th table.
fn sbtest_table(n: u8) -> (r: String)
    ensures
        r@ == table_name(n as int),
{
    let mut v: Vec<u8> = vec![0x73u8, 0x62u8, 0x74u8, 0x65u8, 0x73u8, 0x74u8];
    let mut digits = i64_decimal(n as i64);
    proof {
        lemma_decimal_digits_ascii(n as nat);
    }
    assert(digits@ == decimal_digits(n as nat));
    v.append(&mut digits);
    assert(v@ =~= seq![0x73u8, 0x62u8, 0x74u8, 0x65u8, 0x73u8, 0x74u8] + decimal_text(n as int));
    assert forall|i: int| 0 <= i < v@.len() implies #[trigger] v@[i] < 0x80 by {
        if i >= 6 {
            assert(v@[i] == decimal_digits(n as nat)[i - 6]);
        }
    }
    ascii_string(v)
}

/// Generates a point select: a row id drawn from `1..=keys` on the table
/// named after a number drawn from `1..=tables`. Both ranges must be
/// non-empty.
pub fn generate_oltp_request(
    oltp: &Oltp,
    rng: &mut Xoshiro512PlusPlus,
    sequence: u64,
) -> (r: ClientWorkItemKind<OltpRequest>)
    requires
        oltp.keys >= 1,
        oltp.tables >= 1,
    ensures
        r matches ClientWorkItemKind::Request { request: OltpRequest::PointSelect(p), sequence: s } && {
            &&& s == sequence
            &&& 1 <= p.id <= oltp.keys
            &&& exists|t: int| 1 <= t <= oltp.tables && p.table@ == #[trigger] table_name(t)
        },
{
    let id = rng_range_i32(rng, 1, oltp.keys);
    let table = rng_range_u8(rng, 1, oltp.tables);
    let name = sbtest_table(table);
    assert(name@ == table_name(table as int));
    ClientWorkItemKind::Request {
        request: OltpRequest::PointSelect(PointSelect { id, table: name }),
        sequence,
    }
}

} // verus!

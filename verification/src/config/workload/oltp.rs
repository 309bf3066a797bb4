use vstd::prelude::*;

verus! {

/// An OLTP workload: point selects on `tables` tables of `keys` rows.
#[derive(Clone, Copy, Debug)]
pub struct Oltp {
    pub tables: u8,
    pub keys: i32,
    pub weight: usize,
}

impl Oltp {
    pub fn tables(&self) -> (r: u8)
        ensures
            r == self.tables,
    {
        self.tables
    }

    pub fn keys(&self) -> (r: i32)
        ensures
            r == self.keys,
    {
        self.keys
    }

    pub fn weight(&self) -> (r: usize)
        ensures
            r == self.weight,
    {
        self.weight
    }
}

} // verus!

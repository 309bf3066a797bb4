use vstd::prelude::*;

verus! {

/// A set of values with a weight each.
#[derive(Clone, Debug)]
pub struct RandomSet {
    pub values: Vec<Vec<u8>>,
    pub weights: Vec<usize>,
}

} // verus!

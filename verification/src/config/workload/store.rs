use crate::config::workload::{Distribution, ValueKind};
use vstd::prelude::*;

verus! {

/// The verbs of an object store.
#[derive(Clone, Copy, Debug, PartialEq, Eq, Structural, Hash)]
pub enum StoreVerb {
    /// Sends a `PING` and expects a `PONG`.
    Ping,
    /// Reads the value of a key.
    Get,
    /// Writes the value of a key.
    Put,
    /// Removes a key.
    Delete,
}

/// One weighted command of a store workload.
#[derive(Clone, Copy, Debug, PartialEq, Eq, Structural)]
pub struct StoreCommand {
    pub verb: StoreVerb,
    pub weight: usize,
}

impl StoreCommand {
    pub fn verb(&self) -> (r: StoreVerb)
        ensures
            r == self.verb,
    {
        self.verb
    }

    pub fn weight(&self) -> (r: usize)
        ensures
            r == self.weight,
    {
        self.weight
    }
}

/// A store workload. Its compression ratio is turned into a count of
/// random bytes before it reaches the library.
#[derive(Clone, Debug)]
pub struct Store {
    pub nkeys: usize,
    pub klen: usize,
    pub key_distribution: Distribution,
    pub weight: usize,
    pub commands: Vec<StoreCommand>,
    pub vlen: Option<usize>,
    pub vkind: Option<ValueKind>,
}

impl Store {
    /// The number of keys.
    pub fn nkeys(&self) -> (r: usize)
        ensures
            r == self.nkeys,
    {
        self.nkeys
    }

    /// The length of a key.
    pub fn klen(&self) -> (r: usize)
        ensures
            r == self.klen,
    {
        self.klen
    }

    /// How keys are drawn.
    pub fn key_distribution(&self) -> (r: Distribution)
        ensures
            r == self.key_distribution,
    {
        self.key_distribution
    }

    /// The weight of the store among the components.
    pub fn weight(&self) -> (r: usize)
        ensures
            r == self.weight,
    {
        self.weight
    }

    /// The weighted commands.
    pub fn commands(&self) -> (r: &[StoreCommand])
        ensures
            r@ == self.commands@,
    {
        self.commands.as_slice()
    }

    /// The length of a value, if set.
    pub fn vlen(&self) -> (r: Option<usize>)
        ensures
            r == self.vlen,
    {
        self.vlen
    }

    pub open spec fn spec_vkind(&self) -> ValueKind {
        match self.vkind {
            Some(k) => k,
            None => ValueKind::Bytes,
        }
    }

    /// The kind of the values, bytes unless set.
    pub fn vkind(&self) -> (r: ValueKind)
        ensures
            r == self.spec_vkind(),
    {
        match self.vkind {
            Some(k) => k,
            None => ValueKind::Bytes,
        }
    }

    /// A put of byte values with no value length: the store is refused.
    pub open spec fn lacks_value_length(&self) -> bool {
        self.vlen is None && self.spec_vkind() == ValueKind::Bytes && exists|i: int|
            0 <= i < self.commands@.len() && #[trigger] self.commands@[i].verb == StoreVerb::Put
    }

    /// A put of byte values needs a value length.
    pub fn validate(&self) -> (r: Result<(), StoreVerb>)
        ensures
            r is Err <==> self.lacks_value_length(),
            r matches Err(v) ==> v == StoreVerb::Put,
    {
        let mut i: usize = 0;
        while i < self.commands.len()
            invariant
                i <= self.commands@.len(),
                self.vlen is None && self.spec_vkind() == ValueKind::Bytes ==> forall|j: int|
                    0 <= j < i ==> #[trigger] self.commands@[j].verb != StoreVerb::Put,
            decreases self.commands@.len() - i,
        {
            if self.vlen.is_none() && self.vkind() == ValueKind::Bytes
                && self.commands[i].verb == StoreVerb::Put {
                return Err(StoreVerb::Put);
            }
            i = i + 1;
        }
        Ok(())
    }
}

} // verus!

use vstd::prelude::*;

verus! {

/// A message to publish: to a topic, with an optional key.
#[derive(Clone, Debug, PartialEq)]
pub enum PublisherWorkItem {
    Publish { topic: String, key: Option<Vec<u8>>, message: Vec<u8> },
}

} // verus!

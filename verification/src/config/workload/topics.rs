use crate::config::workload::Distribution;
use vstd::prelude::*;

verus! {

/// A publish-subscribe workload. Its compression ratio is turned into a
/// count of random bytes before it reaches the library.
#[derive(Clone, Debug)]
pub struct Topics {
    pub topics: usize,
    pub partitions: usize,
    pub replications: usize,
    pub topic_len: usize,
    pub topic_names: Vec<String>,
    pub message_len: usize,
    pub key_len: usize,
    pub weight: usize,
    pub subscriber_poolsize: usize,
    pub subscriber_concurrency: usize,
    pub topic_distribution: Distribution,
    pub kafka_single_subscriber_group: bool,
}

impl Topics {
    /// The weight of the topics among the components.
    pub fn weight(&self) -> (r: usize)
        ensures
            r == self.weight,
    {
        self.weight
    }

    /// The partitions of each topic.
    pub fn partitions(&self) -> (r: usize)
        ensures
            r == self.partitions,
    {
        self.partitions
    }

    /// The replicas of each partition.
    pub fn replications(&self) -> (r: usize)
        ensures
            r == self.replications,
    {
        self.replications
    }

    /// The number of topics.
    pub fn topics(&self) -> (r: usize)
        ensures
            r == self.topics,
    {
        self.topics
    }

    /// The length of a generated topic name.
    pub fn topic_len(&self) -> (r: usize)
        ensures
            r == self.topic_len,
    {
        self.topic_len
    }

    /// The configured topic names; empty when they are generated.
    pub fn topic_names(&self) -> (r: &[String])
        ensures
            r@ == self.topic_names@,
    {
        self.topic_names.as_slice()
    }

    /// The length of a message key; zero for none.
    pub fn key_len(&self) -> (r: usize)
        ensures
            r == self.key_len,
    {
        self.key_len
    }

    /// The length of a message.
    pub fn message_len(&self) -> (r: usize)
        ensures
            r == self.message_len,
    {
        self.message_len
    }

    /// The number of subscriber clients.
    pub fn subscriber_poolsize(&self) -> (r: usize)
        ensures
            r == self.subscriber_poolsize,
    {
        self.subscriber_poolsize
    }

    /// The subscriptions each subscriber client holds.
    pub fn subscriber_concurrency(&self) -> (r: usize)
        ensures
            r == self.subscriber_concurrency,
    {
        self.subscriber_concurrency
    }

    /// How topics are drawn.
    pub fn topic_distribution(&self) -> (r: Distribution)
        ensures
            r == self.topic_distribution,
    {
        self.topic_distribution
    }

    /// Whether Kafka subscribers share one consumer group.
    pub fn kafka_single_subscriber_group(&self) -> (r: bool)
        ensures
            r == self.kafka_single_subscriber_group,
    {
        self.kafka_single_subscriber_group
    }
}

} // verus!

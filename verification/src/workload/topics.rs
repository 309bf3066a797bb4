use crate::config::workload as config;
use crate::workload::distribution::{is_zipf, Distribution};
use crate::workload::keys::{alphanumeric_name, generate_unique_keys, keys_as_strings};
use crate::workload::rng::{rng_bytes, rng_from_seed, rng_seed};
use crate::workload::cache::WorkloadError;
use crate::workload::publisher::PublisherWorkItem;
use rand_xoshiro::Xoshiro512PlusPlus;
use vstd::prelude::*;
use zipf::ZipfDistribution;

verus! {

/// The header that opens every published message: `TESTING!`.
pub open spec fn message_header() -> Seq<u8> {
    seq![0x54u8, 0x45u8, 0x53u8, 0x54u8, 0x49u8, 0x4eu8, 0x47u8, 0x21u8]
}

/// A publish-subscribe workload.
#[derive(Clone)]
pub struct TopicsWorkload {
    pub topics: Vec<String>,
    pub partitions: usize,
    pub replications: usize,
    pub topic_dist: Distribution,
    pub key_len: usize,
    pub message_len: usize,
    pub message_random_bytes: usize,
    pub subscriber_poolsize: usize,
    pub subscriber_concurrency: usize,
    pub kafka_single_subscriber_group: bool,
}

/// The length of a string in bytes, as UTF-8.
pub open spec fn byte_len(s: String) -> nat {
    vstd::utf8::encode_utf8(s@).len()
}

/// Whether the configured topic names can be used: as many as the topics,
/// each of the topic length in bytes.
pub open spec fn names_usable(names: Seq<String>, ntopics: nat, topic_len: nat) -> bool {
    &&& names.len() == ntopics
    &&& forall|i: int| 0 <= i < names.len() ==> byte_len(#[trigger] names[i]) == topic_len
}

/// Whether the configured topic names can be used.
fn check_names(names: &Vec<String>, ntopics: usize, topic_len: usize) -> (r: bool)
    ensures
        r == names_usable(names@, ntopics as nat, topic_len as nat),
{
    let mut ok: bool = names.len() == ntopics;
    let mut i: usize = 0;
    while i < names.len()
        invariant
            i <= names@.len(),
            ok == (names@.len() == ntopics && forall|j: int|
                0 <= j < i ==> byte_len(#[trigger] names@[j]) == topic_len),
        decreases names@.len() - i,
    {
        let n: usize = names[i].as_str().as_bytes().len();
        ok = ok && n == topic_len;
        i = i + 1;
    }
    ok
}

impl TopicsWorkload {
    pub open spec fn wf(&self) -> bool {
        &&& self.topic_dist.wf()
        &&& self.topic_dist.spec_len() == self.topics@.len()
    }

    /// Builds the workload: at least one topic, partition and replication;
    /// the configured topic names when there are as many as the topics and
    /// each has the topic length, else distinct alphanumeric names drawn
    /// from a generator whose seed is drawn from one seeded with the
    /// initial seed.
    pub fn new(
        initial_seed: [u8; 64],
        t: &config::topics::Topics,
        topic_zipf: Option<ZipfDistribution>,
        message_random_bytes: usize,
    ) -> (r: Result<Self, WorkloadError>)
        requires
            t.topic_distribution == config::Distribution::Zipf ==> topic_zipf is Some,
        ensures
            r matches Ok(w) ==> {
                let ntopics = if t.topics == 0 { 1nat } else { t.topics as nat };
                &&& w.wf()
                &&& w.topic_dist.is_uniform() == (t.topic_distribution != config::Distribution::Zipf)
                &&& w.topics@.len() == ntopics
                &&& w.partitions == (if t.partitions == 0 { 1 } else { t.partitions })
                &&& w.replications == (if t.replications == 0 { 1 } else { t.replications })
                &&& w.key_len == t.key_len
                &&& w.message_len == t.message_len
                &&& w.message_random_bytes == message_random_bytes
                &&& w.subscriber_poolsize == t.subscriber_poolsize
                &&& w.subscriber_concurrency == t.subscriber_concurrency
                &&& w.kafka_single_subscriber_group == t.kafka_single_subscriber_group
                &&& names_usable(t.topic_names@, ntopics, t.topic_len as nat) ==> forall|i: int|
                    0 <= i < w.topics@.len() ==> (#[trigger] w.topics@[i])@ == t.topic_names@[i]@
                &&& !names_usable(t.topic_names@, ntopics, t.topic_len as nat) ==> {
                    &&& forall|i: int|
                        0 <= i < w.topics@.len() ==> byte_len(#[trigger] w.topics@[i]) == t.topic_len
                    &&& forall|i: int|
                        0 <= i < w.topics@.len() ==> alphanumeric_name((#[trigger] w.topics@[i])@, t.topic_len as nat)
                    &&& forall|i: int, j: int|
                        0 <= i < j < w.topics@.len() ==> w.topics@[i]@ != w.topics@[j]@
                }
            },
            r matches Err(e) ==> e == WorkloadError::NotEnoughDistinctKeys,
            names_usable(
                t.topic_names@,
                if t.topics == 0 { 1nat } else { t.topics as nat },
                t.topic_len as nat,
            ) || (if t.topics == 0 { 1 } else { t.topics as int }) <= vstd::arithmetic::power::pow(
                62,
                t.topic_len as nat,
            ) ==> r is Ok,
    {
        let ntopics: usize = if t.topics == 0 { 1 } else { t.topics };
        let partitions: usize = if t.partitions == 0 { 1 } else { t.partitions };
        let replications: usize = if t.replications == 0 { 1 } else { t.replications };
        let topic_dist = if is_zipf(t.topic_distribution) {
            match topic_zipf {
                Some(z) => Distribution::zipf(z, ntopics),
                None => Distribution::uniform(ntopics),
            }
        } else {
            Distribution::uniform(ntopics)
        };
        let mut topics: Vec<String> = Vec::new();
        if check_names(&t.topic_names, ntopics, t.topic_len) {
            let mut i: usize = 0;
            while i < t.topic_names.len()
                invariant
                    i <= t.topic_names@.len(),
                    topics@.len() == i,
                    forall|j: int| 0 <= j < i ==> (#[trigger] topics@[j])@ == t.topic_names@[j]@,
                decreases t.topic_names@.len() - i,
            {
                topics.push(t.topic_names[i].clone());
                i = i + 1;
            }
        } else {
            let mut rng = rng_from_seed(initial_seed);
            let name_seed = rng_seed(&mut rng);
            let mut rng = rng_from_seed(name_seed);
            let names = match generate_unique_keys(&mut rng, ntopics, t.topic_len) {
                Some(names) => names,
                None => return Err(WorkloadError::NotEnoughDistinctKeys),
            };
            topics = keys_as_strings(names, Ghost(t.topic_len as nat));
        }
        Ok(TopicsWorkload {
            topics,
            partitions,
            replications,
            topic_dist,
            key_len: t.key_len,
            message_len: t.message_len,
            message_random_bytes,
            subscriber_poolsize: t.subscriber_poolsize,
            subscriber_concurrency: t.subscriber_concurrency,
            kafka_single_subscriber_group: t.kafka_single_subscriber_group,
        })
    }

    pub fn topics(&self) -> (r: &Vec<String>)
        ensures
            r == &self.topics,
    {
        &self.topics
    }

    pub fn partitions(&self) -> (r: usize)
        ensures
            r == self.partitions,
    {
        self.partitions
    }

    pub fn replications(&self) -> (r: usize)
        ensures
            r == self.replications,
    {
        self.replications
    }

    pub fn subscriber_poolsize(&self) -> (r: usize)
        ensures
            r == self.subscriber_poolsize,
    {
        self.subscriber_poolsize
    }

    pub fn subscriber_concurrency(&self) -> (r: usize)
        ensures
            r == self.subscriber_concurrency,
    {
        self.subscriber_concurrency
    }

    pub fn kafka_single_subscriber_group(&self) -> (r: bool)
        ensures
            r == self.kafka_single_subscriber_group,
    {
        self.kafka_single_subscriber_group
    }

    /// The end of the random part of a message.
    pub open spec fn random_end(&self) -> int {
        if self.message_random_bytes + 32 < self.message_len {
            self.message_random_bytes + 32
        } else {
            self.message_len as int
        }
    }

    /// Generates a message to publish: to a drawn topic; `message_len`
    /// bytes opening with the `TESTING!` header, random from byte 32 up to
    /// `message_random_bytes` bytes later (or the end), zero elsewhere; and
    /// a random key of `key_len` bytes, or none when the length is zero.
    pub fn generate_pubsub(&self, rng: &mut Xoshiro512PlusPlus) -> (r: PublisherWorkItem)
        requires
            self.wf(),
            self.message_len >= 32,
            self.message_random_bytes + 32 <= usize::MAX,
        ensures
            r matches PublisherWorkItem::Publish { topic, key, message } && {
                &&& exists|i: int| 0 <= i < self.topics@.len() && topic@ == (#[trigger] self.topics@[i])@
                &&& message@.len() == self.message_len
                &&& message@.subrange(0, 8) == message_header()
                &&& forall|i: int| 8 <= i < 32 ==> message@[i] == 0
                &&& forall|i: int| self.random_end() <= i < self.message_len ==> message@[i] == 0
                &&& (key is None <==> self.key_len == 0)
                &&& key matches Some(k) ==> k@.len() == self.key_len
            },
    {
        let topic_index = self.topic_dist.sample(rng);
        let topic = self.topics[topic_index].clone();

        let limit: usize = if self.message_random_bytes + 32 < self.message_len {
            self.message_random_bytes + 32
        } else {
            self.message_len
        };
        let random = rng_bytes(rng, limit - 32);
        let header: [u8; 8] = [0x54, 0x45, 0x53, 0x54, 0x49, 0x4e, 0x47, 0x21];
        let mut m: Vec<u8> = Vec::new();
        let mut i: usize = 0;
        while i < self.message_len
            invariant
                i <= self.message_len,
                m@.len() == i,
                limit == self.random_end(),
                32 <= limit <= self.message_len,
                random@.len() == limit - 32,
                header@ == message_header(),
                forall|j: int| 0 <= j < i ==> #[trigger] m@[j] == (if j < 8 {
                    header@[j]
                } else if 32 <= j < limit {
                    random@[j - 32]
                } else {
                    0u8
                }),
            decreases self.message_len - i,
        {
            let b: u8 = if i < 8 {
                header[i]
            } else if 32 <= i && i < limit {
                random[i - 32]
            } else {
                0u8
            };
            m.push(b);
            i = i + 1;
        }
        assert(m@.subrange(0, 8) =~= message_header());
        let key = if self.key_len == 0 {
            None
        } else {
            Some(rng_bytes(rng, self.key_len))
        };
        PublisherWorkItem::Publish { topic, key, message: m }
    }
}

} // verus!

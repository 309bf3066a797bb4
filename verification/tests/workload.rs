use rand::SeedableRng;
use rand_xoshiro::{Seed512, Xoshiro512PlusPlus};
use rpc_perf::config::workload::cache::{Command, Keyspace as KeyspaceConfig, KeyspaceError, KeyspaceWarning, Verb};
use rpc_perf::config::workload::leaderboards::{LeaderboardCommand, LeaderboardOrder, LeaderboardsConfig};
use rpc_perf::config::workload::oltp::Oltp as OltpConfig;
use rpc_perf::config::workload::topics::Topics;
use rpc_perf::config::workload::{
    Distribution as DistributionConfig, RampCompletionAction, RampType, Ratelimit as RatelimitConfig, ValueKind, Workload,
};
use rpc_perf::workload::buf::i64_decimal;
use rpc_perf::workload::cache::cardinalities_fit_check;
use rpc_perf::workload::client::ClientRequest;
use rpc_perf::workload::distribution::Distribution;
use rpc_perf::workload::keys::{generate_unique_keys, sample_distinct_keys, sample_keys};
use rpc_perf::workload::keyspace::Keyspace;
use rpc_perf::workload::leaderboard::{leaderboard_cardinalities_fit_check, LeaderboardRequest, LeaderboardsWorkload};
use rpc_perf::workload::oltp::{generate_oltp_request, Oltp, OltpRequest};
use rpc_perf::workload::publisher::PublisherWorkItem;
use rpc_perf::workload::topics::TopicsWorkload;
use rpc_perf::workload::store::{StoreClientRequest, StoreWorkload};
use rpc_perf::config::workload::store::{Store, StoreCommand, StoreVerb};
use rpc_perf::workload::{ClientWorkItemKind, Component, GeneratedItem, Generator, GeneratorError};
use std::collections::HashSet;
use rpc_perf::workload::key_index::{hash_key, KeyIndex};
use rpc_perf::config::workload::Command as WeightedCommand;

fn rng(seed: u8) -> Xoshiro512PlusPlus {
    Xoshiro512PlusPlus::from_seed(Seed512([seed; 64]))
}

fn command(verb: Verb, cardinality: usize) -> Command {
    Command { verb, weight: 1, cardinality, truncate: None, start: None, end: None, by_score: false }
}

fn keyspace_config(commands: Vec<Command>) -> KeyspaceConfig {
    KeyspaceConfig {
        nkeys: 20,
        klen: 6,
        key_distribution: DistributionConfig::Uniform,
        weight: 1,
        commands,
        inner_keys_nkeys: Some(8),
        inner_keys_klen: Some(3),
        vlen: Some(16),
        vkind: Some(ValueKind::Bytes),
        ttl: Some(30),
    }
}

fn is_alnum(b: &u8) -> bool {
    b.is_ascii_alphanumeric()
}

#[test]
fn decimal_text_of_integers() {
    assert_eq!(i64_decimal(0), b"0".to_vec());
    assert_eq!(i64_decimal(-123), b"-123".to_vec());
    assert_eq!(i64_decimal(9_876_543_210), b"9876543210".to_vec());
    assert_eq!(i64_decimal(i64::MIN), i64::MIN.to_string().into_bytes());
    assert_eq!(i64_decimal(i64::MAX), i64::MAX.to_string().into_bytes());
}

#[test]
fn unique_keys_are_distinct_alphanumeric() {
    let keys = generate_unique_keys(&mut rng(1), 50, 4).unwrap();
    assert_eq!(keys.len(), 50);
    let set: HashSet<_> = keys.iter().cloned().collect();
    assert_eq!(set.len(), 50);
    assert!(keys.iter().all(|k| k.len() == 4 && k.iter().all(is_alnum)));
}

#[test]
fn unique_keys_are_reproducible_from_the_seed() {
    assert_eq!(generate_unique_keys(&mut rng(7), 10, 8), generate_unique_keys(&mut rng(7), 10, 8));
}

#[test]
fn sampled_keys_come_from_the_pool() {
    let pool = generate_unique_keys(&mut rng(2), 5, 3).unwrap();
    let dist = Distribution::uniform(5);
    let drawn = sample_keys(&pool, &dist, &mut rng(3), 12);
    assert_eq!(drawn.len(), 12);
    assert!(drawn.iter().all(|k| pool.contains(k)));
    let distinct = sample_distinct_keys(&pool, &dist, &mut rng(4), 5);
    let set: HashSet<_> = distinct.iter().cloned().collect();
    assert_eq!(set.len(), 5);
    assert!(distinct.iter().all(|k| pool.contains(k)));
}

#[test]
fn uniform_distribution_samples_in_range() {
    let d = Distribution::uniform(3);
    assert_eq!(d.len(), 3);
    let mut r = rng(5);
    for _ in 0..100 {
        assert!(d.sample(&mut r) < 3);
    }
}

#[test]
fn keyspace_validation_errors() {
    let mut k = keyspace_config(vec![command(Verb::SetValue, 1)]);
    k.vlen = None;
    assert_eq!(k.validate(), Err(KeyspaceError::MissingValueLength(Verb::SetValue)));
    let k = keyspace_config(vec![command(Verb::Get, 0)]);
    assert_eq!(k.validate(), Err(KeyspaceError::ZeroCardinality));
    let k = keyspace_config(vec![command(Verb::Get, 2)]);
    assert_eq!(k.validate(), Err(KeyspaceError::CardinalityNotSupported(Verb::Get)));
    let mut c = command(Verb::ListPushBack, 1);
    c.truncate = Some(0);
    assert_eq!(keyspace_config(vec![c]).validate(), Err(KeyspaceError::ZeroTruncate));
    let mut c = command(Verb::Get, 1);
    c.truncate = Some(3);
    assert_eq!(keyspace_config(vec![c]).validate(), Err(KeyspaceError::TruncateNotSupported(Verb::Get)));
    let mut k = keyspace_config(vec![command(Verb::HashGet, 2)]);
    k.inner_keys_nkeys = None;
    assert_eq!(k.validate(), Err(KeyspaceError::MissingInnerKeys(Verb::HashGet)));
}

#[test]
fn keyspace_validation_warnings() {
    let mut c = command(Verb::Get, 1);
    c.start = Some(1);
    c.by_score = true;
    let mut r = command(Verb::SortedSetRange, 1);
    r.start = Some(0);
    r.end = Some(5);
    let k = keyspace_config(vec![c, r]);
    assert_eq!(
        k.validate(),
        Ok(vec![KeyspaceWarning::StartNotSupported(Verb::Get), KeyspaceWarning::ByScoreNotSupported(Verb::Get)])
    );
}

#[test]
fn cardinalities_must_fit_in_inner_keys() {
    assert!(cardinalities_fit_check(&keyspace_config(vec![command(Verb::SetAdd, 8)])));
    assert!(!cardinalities_fit_check(&keyspace_config(vec![command(Verb::SetAdd, 9)])));
    assert!(cardinalities_fit_check(&keyspace_config(vec![command(Verb::HashGet, 9)])));
}

#[test]
fn keyspace_generates_requests_from_its_keys() {
    let k = keyspace_config(vec![command(Verb::Get, 1), command(Verb::SetAdd, 4), command(Verb::HashGet, 3)]);
    assert!(k.validate().is_ok());
    let ks = Keyspace::new([9u8; 64], &k, None).unwrap();
    let mut r = rng(11);
    for seq in 0..50u64 {
        match ks.generate_request(&mut r, seq) {
            ClientWorkItemKind::Request { request, sequence } => {
                assert_eq!(sequence, seq);
                match request {
                    ClientRequest::Get(g) => assert_eq!(g.key.len(), 6),
                    ClientRequest::SetAdd(s) => {
                        assert_eq!(s.key.len(), 6);
                        assert_eq!(s.members.len(), 4);
                        let set: HashSet<_> = s.members.iter().cloned().collect();
                        assert_eq!(set.len(), 4);
                        assert!(s.members.iter().all(|m| m.len() == 3));
                        assert_eq!(s.ttl, Some(30));
                    }
                    ClientRequest::HashGet(h) => assert_eq!(h.fields.len(), 3),
                    _ => panic!("unexpected request"),
                }
            }
            ClientWorkItemKind::Reconnect => panic!("unexpected reconnect"),
        }
    }
}

#[test]
fn oltp_point_selects() {
    let o = Oltp::new(&OltpConfig { tables: 3, keys: 5, weight: 1 });
    assert_eq!((o.tables, o.keys), (3, 5));
    let names = ["sbtest1", "sbtest2", "sbtest3"];
    let mut r = rng(12);
    for seq in 0..40u64 {
        match generate_oltp_request(&o, &mut r, seq) {
            ClientWorkItemKind::Request { request: OltpRequest::PointSelect(p), sequence } => {
                assert_eq!(sequence, seq);
                assert!(1 <= p.id && p.id <= 5);
                assert!(names.contains(&p.table.as_str()));
            }
            _ => panic!("unexpected work item"),
        }
    }
}

fn topics_config(names: Vec<String>) -> Topics {
    Topics {
        topics: 3,
        partitions: 0,
        replications: 2,
        topic_len: 5,
        topic_names: names,
        message_len: 64,
        key_len: 4,
        weight: 1,
        subscriber_poolsize: 1,
        subscriber_concurrency: 1,
        topic_distribution: DistributionConfig::Uniform,
        kafka_single_subscriber_group: true,
    }
}

#[test]
fn topics_use_configured_names_when_they_fit() {
    let names = vec!["aaaaa".to_string(), "bbbbb".to_string(), "ccccc".to_string()];
    let w = TopicsWorkload::new([1u8; 64], &topics_config(names.clone()), None, 10).unwrap();
    assert_eq!(w.topics(), &names);
    assert_eq!(w.partitions(), 1);
    assert_eq!(w.replications(), 2);
    assert!(w.kafka_single_subscriber_group());
}

#[test]
fn topics_draw_names_when_configured_ones_do_not_fit() {
    let names = vec!["short".to_string(), "toolong".to_string(), "ccccc".to_string()];
    let w = TopicsWorkload::new([1u8; 64], &topics_config(names), None, 10).unwrap();
    assert_eq!(w.topics().len(), 3);
    assert!(w.topics().iter().all(|t| t.len() == 5 && t.bytes().all(|b| b.is_ascii_alphanumeric())));
    let set: HashSet<_> = w.topics().iter().cloned().collect();
    assert_eq!(set.len(), 3);
}

#[test]
fn published_messages_have_the_header_and_zeros() {
    let names = vec!["aaaaa".to_string(), "bbbbb".to_string(), "ccccc".to_string()];
    let w = TopicsWorkload::new([1u8; 64], &topics_config(names.clone()), None, 10).unwrap();
    let PublisherWorkItem::Publish { topic, key, message } = w.generate_pubsub(&mut rng(13));
    assert!(names.contains(&topic));
    assert_eq!(message.len(), 64);
    assert_eq!(&message[0..8], b"TESTING!");
    assert!(message[8..32].iter().all(|b| *b == 0));
    assert!(message[42..].iter().all(|b| *b == 0));
    assert_eq!(key.map(|k| k.len()), Some(4));
}

fn leaderboards_config(commands: Vec<LeaderboardCommand>) -> LeaderboardsConfig {
    LeaderboardsConfig {
        leaderboards: 4,
        name_length: 6,
        distribution: DistributionConfig::Uniform,
        weight: 1,
        commands,
        ids: 10,
        id_distribution: DistributionConfig::Uniform,
    }
}

#[test]
fn leaderboard_cardinalities_must_fit_in_ids() {
    let ok = leaderboards_config(vec![LeaderboardCommand::Remove { cardinality: 10, weight: 1 }]);
    assert!(leaderboard_cardinalities_fit_check(&ok));
    let bad = leaderboards_config(vec![LeaderboardCommand::Upsert { cardinality: 11, weight: 1 }]);
    assert!(!leaderboard_cardinalities_fit_check(&bad));
}

#[test]
fn leaderboard_requests() {
    let c = leaderboards_config(vec![
        LeaderboardCommand::GetRank { cardinality: 3, order: LeaderboardOrder::Descending, weight: 1 },
        LeaderboardCommand::GetByRank { cardinality: 7, order: LeaderboardOrder::Ascending, weight: 1 },
        LeaderboardCommand::Upsert { cardinality: 0, weight: 1 },
        LeaderboardCommand::GetByScore { cardinality: 5, offset: 2, order: LeaderboardOrder::Ascending, weight: 1 },
        LeaderboardCommand::Length { weight: 1 },
        LeaderboardCommand::Delete { weight: 1 },
        LeaderboardCommand::Remove { cardinality: 10, weight: 1 },
    ]);
    let w = LeaderboardsWorkload::new([3u8; 64], &c, 0, None, None).unwrap();
    assert_eq!(w.leaderboards.len(), 4);
    assert!(w.leaderboards.iter().all(|l| l.len() == 6));
    assert_eq!(w.ids.len(), 10);
    let ids: HashSet<u32> = w.ids.iter().cloned().collect();
    assert_eq!(ids.len(), 10);
    let mut r = rng(14);
    for seq in 0..100u64 {
        let ClientWorkItemKind::Request { request, sequence } = w.generate_request(&mut r, seq) else {
            panic!("unexpected reconnect")
        };
        assert_eq!(sequence, seq);
        let check_ids = |v: &Vec<u32>, n: usize| {
            assert_eq!(v.len(), n);
            let s: HashSet<u32> = v.iter().cloned().collect();
            assert_eq!(s.len(), n);
            assert!(v.iter().all(|i| ids.contains(i)));
        };
        match request {
            LeaderboardRequest::GetRank { leaderboard, ids: v, order } => {
                assert!(w.leaderboards.contains(&leaderboard));
                check_ids(&v, 3);
                assert_eq!(order, LeaderboardOrder::Descending);
            }
            LeaderboardRequest::GetByRank { range, order, .. } => {
                assert_eq!(range, Some(0..7));
                assert_eq!(order, LeaderboardOrder::Ascending);
            }
            LeaderboardRequest::Upsert { ids: v, .. } => check_ids(&v, 1),
            LeaderboardRequest::GetByScore { offset, limit, .. } => assert_eq!((offset, limit), (2, 5)),
            LeaderboardRequest::Length { leaderboard } => assert!(w.leaderboards.contains(&leaderboard)),
            LeaderboardRequest::Delete { leaderboard } => assert!(w.leaderboards.contains(&leaderboard)),
            LeaderboardRequest::Remove { ids: v, .. } => check_ids(&v, 10),
        }
    }
}

#[test]
fn leaderboard_names_are_at_least_the_minimum_length() {
    let c = leaderboards_config(vec![LeaderboardCommand::Length { weight: 1 }]);
    let w = LeaderboardsWorkload::new([3u8; 64], &c, 9, None, None).unwrap();
    assert!(w.leaderboards.iter().all(|l| l.len() == 9));
}

#[test]
fn leaderboard_weights_of_zero_are_refused() {
    let c = leaderboards_config(vec![LeaderboardCommand::Length { weight: 0 }]);
    assert!(LeaderboardsWorkload::new([3u8; 64], &c, 0, None, None).is_err());
}

#[test]
fn generator_without_components_is_refused() {
    assert!(matches!(Generator::new(vec![]), Err(GeneratorError::NoComponents)));
}

#[test]
fn generator_with_zero_weights_is_refused() {
    let o = Oltp::new(&OltpConfig { tables: 1, keys: 1, weight: 0 });
    assert!(matches!(Generator::new(vec![(Component::Oltp(o), 0)]), Err(GeneratorError::InvalidWeights)));
}

#[test]
fn generator_draws_among_components() {
    let o = Oltp::new(&OltpConfig { tables: 2, keys: 9, weight: 1 });
    let names = vec!["aaaaa".to_string(), "bbbbb".to_string(), "ccccc".to_string()];
    let t = TopicsWorkload::new([1u8; 64], &topics_config(names), None, 10).unwrap();
    let parts = vec![(Component::Oltp(o), 1), (Component::Topics(t), 1)];
    assert!(parts.iter().all(|(c, _)| c.can_generate()));
    let g = Generator::new(parts).unwrap();
    assert_eq!(g.components().len(), 2);
    let mut r = rng(15);
    let (mut oltp, mut publish) = (0, 0);
    for seq in 0..200u64 {
        match g.generate(&mut r, seq) {
            GeneratedItem::Oltp(ClientWorkItemKind::Request { sequence, .. }) => {
                assert_eq!(sequence, seq);
                oltp += 1;
            }
            GeneratedItem::Publish(_) => publish += 1,
            _ => panic!("unexpected item"),
        }
    }
    assert!(oltp > 0 && publish > 0);
}

#[test]
fn short_messages_cannot_be_generated() {
    let mut c = topics_config(vec![]);
    c.message_len = 16;
    let t = TopicsWorkload::new([1u8; 64], &c, None, 10).unwrap();
    assert!(!Component::Topics(t).can_generate());
    let o = Oltp::new(&OltpConfig { tables: 0, keys: 9, weight: 1 });
    assert!(!Component::Oltp(o).can_generate());
}

#[test]
fn fnv_hash_of_keys() {
    assert_eq!(hash_key(&vec![]), 0xcbf29ce484222325);
    assert_eq!(hash_key(&b"a".to_vec()), 0xaf63dc4c8601ec8c);
    assert_eq!(hash_key(&b"foobar".to_vec()), 0x85944171f73967e8);
}

#[test]
fn key_index_membership() {
    let mut idx = KeyIndex::new();
    assert!(!idx.contains(&b"abc".to_vec()));
    idx.insert(b"abc".to_vec());
    idx.insert(b"abd".to_vec());
    assert_eq!(idx.len(), 2);
    assert!(idx.contains(&b"abc".to_vec()));
    assert!(idx.contains(&b"abd".to_vec()));
    assert!(!idx.contains(&b"ab".to_vec()));
    assert_eq!(idx.into_keys(), vec![b"abc".to_vec(), b"abd".to_vec()]);
}

#[test]
fn cache_workload_generates_every_verb() {
    let verbs = [
        Verb::Add, Verb::Get, Verb::SetValue, Verb::Delete, Verb::Replace, Verb::HashGet, Verb::HashGetAll,
        Verb::HashDelete, Verb::HashExists, Verb::HashIncrement, Verb::HashSet, Verb::ListPushFront,
        Verb::ListPushBack, Verb::ListFetch, Verb::ListLength, Verb::ListPopFront, Verb::ListPopBack,
        Verb::ListRemove, Verb::Ping, Verb::SetAdd, Verb::SetMembers, Verb::SetRemove, Verb::SortedSetAdd,
        Verb::SortedSetRange, Verb::SortedSetRemove, Verb::SortedSetIncrement, Verb::SortedSetScore,
        Verb::SortedSetRank,
    ];
    let commands: Vec<Command> = verbs
        .iter()
        .map(|v| {
            let card = if v.supports_cardinality() { 2 } else { 1 };
            command(*v, card)
        })
        .collect();
    let k = keyspace_config(commands);
    assert!(k.validate().is_ok());
    assert!(cardinalities_fit_check(&k));
    let w = rpc_perf::workload::cache::CacheWorkload::new([5u8; 64], &k, None, 100).unwrap();
    let mut r = rng(21);
    let mut seen = HashSet::new();
    for seq in 0..2_000u64 {
        let ClientWorkItemKind::Request { request, sequence } = w.generate_request(&mut r, seq) else {
            panic!("unexpected reconnect")
        };
        assert_eq!(sequence, seq);
        let name = format!("{:?}", request);
        seen.insert(name.split('(').next().unwrap().to_string());
        match request {
            ClientRequest::SetValue(s) => {
                assert_eq!(s.key.len(), 6);
                assert_eq!(s.value.len(), 16);
                assert_eq!(s.ttl, Some(30));
            }
            ClientRequest::HashSet(h) => {
                assert_eq!(h.data.len(), 2);
                assert_ne!(h.data[0].0, h.data[1].0);
                assert!(h.data.iter().all(|(f, v)| f.len() == 3 && v.len() == 16));
            }
            ClientRequest::ListPushBack(l) => {
                assert_eq!(l.elements.len(), 2);
                assert_eq!(l.truncate, None);
            }
            ClientRequest::SortedSetRemove(s) => {
                assert_eq!(s.members.len(), 2);
                assert_ne!(s.members[0], s.members[1]);
            }
            _ => {}
        }
    }
    assert_eq!(seen.len(), verbs.len());
}

fn workload_config(topics: Vec<Topics>, oltp: Option<OltpConfig>) -> Workload {
    Workload {
        keyspace: vec![],
        stores: vec![],
        topics,
        oltp,
        leaderboards: vec![],
        threads: 1,
        ratelimit: RatelimitConfig::new(0, None, None, None, RampType::Linear, RampCompletionAction::Stable),
    }
}

#[test]
fn generator_of_a_workload_orders_its_components() {
    let names = vec!["aaaaa".to_string(), "bbbbb".to_string(), "ccccc".to_string()];
    let t = topics_config(names);
    let w = workload_config(vec![t.clone()], Some(OltpConfig { tables: 2, keys: 4, weight: 3 }));
    let topics = vec![TopicsWorkload::new([1u8; 64], &t, None, 10).unwrap()];
    let g = Generator::from_workload(&w, vec![], topics, vec![], vec![]).unwrap();
    assert_eq!(g.components().len(), 2);
    assert!(matches!(g.components()[0], Component::Topics(_)));
    assert!(matches!(g.components()[1], Component::Oltp(Oltp { tables: 2, keys: 4 })));
}

#[test]
fn empty_workload_has_no_generator() {
    let w = workload_config(vec![], None);
    assert!(matches!(
        Generator::from_workload(&w, vec![], vec![], vec![], vec![]),
        Err(GeneratorError::NoComponents)
    ));
}

#[test]
fn store_requests_use_string_keys_and_window_values() {
    let store = Store {
        nkeys: 30,
        klen: 8,
        key_distribution: DistributionConfig::Uniform,
        weight: 1,
        commands: vec![
            StoreCommand { verb: StoreVerb::Put, weight: 1 },
            StoreCommand { verb: StoreVerb::Get, weight: 1 },
            StoreCommand { verb: StoreVerb::Delete, weight: 1 },
            StoreCommand { verb: StoreVerb::Ping, weight: 1 },
        ],
        vlen: Some(32),
        vkind: Some(ValueKind::Bytes),
    };
    assert_eq!(store.validate(), Ok(()));
    let w = StoreWorkload::new([2u8; 64], &store, None, 64).unwrap();
    let mut r = rng(31);
    let mut puts = 0;
    for seq in 0..200u64 {
        let ClientWorkItemKind::Request { request, sequence } = w.generate_request(&mut r, seq) else {
            panic!("unexpected reconnect")
        };
        assert_eq!(sequence, seq);
        match request {
            StoreClientRequest::Put(p) => {
                puts += 1;
                assert_eq!(p.key.len(), 8);
                assert!(p.key.bytes().all(|b| b.is_ascii_alphanumeric()));
                assert_eq!(p.value.len(), 32);
            }
            StoreClientRequest::Get(g) => assert_eq!(g.key.len(), 8),
            StoreClientRequest::Delete(d) => assert_eq!(d.key.len(), 8),
            StoreClientRequest::Ping(_) => {}
            StoreClientRequest::Reconnect => panic!("unexpected reconnect"),
        }
    }
    assert!(puts > 0);
}

#[test]
fn store_put_without_value_length_is_refused() {
    let store = Store {
        nkeys: 1,
        klen: 4,
        key_distribution: DistributionConfig::Uniform,
        weight: 1,
        commands: vec![StoreCommand { verb: StoreVerb::Put, weight: 1 }],
        vlen: None,
        vkind: None,
    };
    assert_eq!(store.validate(), Err(StoreVerb::Put));
}

#[test]
fn one_key_is_always_drawn() {
    assert_eq!(generate_unique_keys(&mut rng(40), 1, 0), Some(vec![vec![]]));
    assert_eq!(generate_unique_keys(&mut rng(40), 0, 5), Some(vec![]));
}

#[test]
fn leaderboard_command_weights() {
    assert_eq!(LeaderboardCommand::Delete { weight: 4 }.weight(), 4);
    assert_eq!(LeaderboardCommand::GetRank { cardinality: 2, order: LeaderboardOrder::Ascending, weight: 7 }.weight(), 7);
    assert_eq!(LeaderboardCommand::GetByScore { cardinality: 2, offset: 1, order: LeaderboardOrder::Ascending, weight: 3 }.weight(), 3);
    assert_eq!(LeaderboardCommand::Upsert { cardinality: 1, weight: 9 }.weight(), 9);
}

#[test]
fn every_one_letter_key_can_be_drawn() {
    let keys = generate_unique_keys(&mut rng(41), 62, 1).unwrap();
    let set: HashSet<_> = keys.iter().cloned().collect();
    assert_eq!(set.len(), 62);
    assert!(keys.iter().all(|k| k.len() == 1 && k[0].is_ascii_alphanumeric()));
}

#[test]
fn commands_of_weight_zero_are_never_drawn() {
    let mut delete = command(Verb::Delete, 1);
    delete.weight = 0;
    let k = keyspace_config(vec![command(Verb::Get, 1), delete]);
    let ks = Keyspace::new([5u8; 64], &k, None).unwrap();
    let mut r = rng(41);
    for seq in 0..300u64 {
        match ks.generate_request(&mut r, seq) {
            ClientWorkItemKind::Request { request: ClientRequest::Get(_), .. } => {}
            _ => panic!("only gets have weight"),
        }
    }
    let store = Store {
        nkeys: 10,
        klen: 4,
        key_distribution: DistributionConfig::Uniform,
        weight: 1,
        commands: vec![
            StoreCommand { verb: StoreVerb::Put, weight: 0 },
            StoreCommand { verb: StoreVerb::Ping, weight: 3 },
        ],
        vlen: Some(8),
        vkind: Some(ValueKind::Bytes),
    };
    let w = StoreWorkload::new([6u8; 64], &store, None, 16).unwrap();
    for seq in 0..300u64 {
        match w.generate_request(&mut r, seq) {
            ClientWorkItemKind::Request { request: StoreClientRequest::Ping(_), .. } => {}
            _ => panic!("only pings have weight"),
        }
    }
}

#[test]
fn components_of_weight_zero_are_never_drawn() {
    let o = Oltp::new(&OltpConfig { tables: 2, keys: 9, weight: 0 });
    let names = vec!["aaaaa".to_string(), "bbbbb".to_string(), "ccccc".to_string()];
    let t = TopicsWorkload::new([1u8; 64], &topics_config(names), None, 10).unwrap();
    let g = Generator::new(vec![(Component::Oltp(o), 0), (Component::Topics(t), 2)]).unwrap();
    let mut r = rng(17);
    for seq in 0..300u64 {
        assert!(matches!(g.generate(&mut r, seq), GeneratedItem::Publish(_)));
    }
}

#[test]
fn configuration_accessors() {
    let k = keyspace_config(vec![command(Verb::Get, 1)]);
    assert_eq!((k.nkeys(), k.klen(), k.weight()), (20, 6, 1));
    assert_eq!(k.key_distribution(), DistributionConfig::Uniform);
    assert_eq!(k.commands().len(), 1);
    assert_eq!((k.inner_keys_nkeys(), k.inner_keys_klen()), (Some(8), Some(3)));
    assert_eq!((k.vlen(), k.ttl()), (Some(16), Some(30)));
    let t = topics_config(vec!["aaaaa".to_string()]);
    assert_eq!((t.topics(), t.partitions(), t.replications()), (3, 0, 2));
    assert_eq!((t.topic_len(), t.message_len(), t.key_len(), t.weight()), (5, 64, 4, 1));
    assert_eq!(t.topic_names(), &["aaaaa".to_string()][..]);
    assert_eq!((t.subscriber_poolsize(), t.subscriber_concurrency()), (1, 1));
    assert_eq!(t.topic_distribution(), DistributionConfig::Uniform);
    assert!(t.kafka_single_subscriber_group());
    let s = Store {
        nkeys: 7,
        klen: 3,
        key_distribution: DistributionConfig::Zipf,
        weight: 2,
        commands: vec![StoreCommand { verb: StoreVerb::Get, weight: 1 }],
        vlen: None,
        vkind: None,
    };
    assert_eq!((s.nkeys(), s.klen(), s.weight(), s.vlen()), (7, 3, 2, None));
    assert_eq!(s.key_distribution(), DistributionConfig::Zipf);
    assert_eq!(s.commands().len(), 1);
    assert_eq!(s.vkind(), ValueKind::Bytes);
}

#[test]
fn generator_carries_the_workload_ratelimit() {
    let t = topics_config(vec!["aaaaa".to_string()]);
    let mut w = workload_config(vec![t.clone()], None);
    let topics = vec![TopicsWorkload::new([1u8; 64], &t, None, 10).unwrap()];
    let g = Generator::from_workload(&w, vec![], topics, vec![], vec![]).unwrap();
    assert!(g.ratelimiter().is_none());
    w.ratelimit = RatelimitConfig::new(2_500_000, None, None, None, RampType::Linear, RampCompletionAction::Stable);
    let topics = vec![TopicsWorkload::new([1u8; 64], &t, None, 10).unwrap()];
    let g = Generator::from_workload(&w, vec![], topics, vec![], vec![]).unwrap();
    let p = g.ratelimiter().unwrap();
    assert_eq!((p.amount, p.interval_ns, p.max_tokens), (3, 1_200, 192));
}

#[test]
fn zipf_ranks_are_the_indices() {
    let d = Distribution::zipf(zipf::ZipfDistribution::new(4, 1.0).unwrap(), 4);
    assert_eq!(d.len(), 4);
    let mut r = rng(23);
    let mut counts = [0usize; 4];
    for _ in 0..4000 {
        let i = d.sample(&mut r);
        assert!(i < 4);
        counts[i] += 1;
    }
    // rank 1 (index 1) is the most frequent; rank 4 wraps to index 0
    assert!(counts[1] > counts[2] && counts[2] > counts[3] && counts[3] > 0);
    assert!(counts[1] > counts[0] && counts[0] > 0);
}

use rpc_perf::config::workload::{RampCompletionAction, RampType, Ratelimit as RatelimitConfig, RatelimitError};
use rpc_perf::workload::ratelimit::Ratelimit;
use rpc_perf::workload::{ratelimiter_params, workload_ratelimiter};

fn dynamic(start: u64, end: u64, step: u64, ramp: RampType, action: RampCompletionAction) -> RatelimitConfig {
    RatelimitConfig::new(start, Some(end), Some(step), Some(5), ramp, action)
}

fn schedule(rl: &mut Ratelimit, n: usize) -> Vec<u64> {
    (0..n).map(|_| rl.next_ratelimit()).collect()
}

#[test]
fn static_ratelimit_validates_and_has_no_schedule() {
    let c = RatelimitConfig::new(1000, None, None, None, RampType::Linear, RampCompletionAction::Stable);
    assert!(!c.is_dynamic());
    assert_eq!(c.validate(), Ok(()));
    assert_eq!(c.start(), Some(1000));
    assert!(Ratelimit::new(&c).is_none());
}

#[test]
fn zero_start_means_no_ratelimit() {
    let c = RatelimitConfig::new(0, None, None, None, RampType::Linear, RampCompletionAction::Stable);
    assert_eq!(c.start(), None);
}

#[test]
fn dynamic_ratelimit_missing_parameters() {
    let c = RatelimitConfig::new(10, Some(30), None, Some(5), RampType::Linear, RampCompletionAction::Stable);
    assert!(c.is_dynamic());
    assert_eq!(c.validate(), Err(RatelimitError::MissingParameters));
}

#[test]
fn dynamic_ratelimit_invalid_range() {
    let c = dynamic(40, 30, 10, RampType::Linear, RampCompletionAction::Stable);
    assert_eq!(c.validate(), Err(RatelimitError::InvalidRange));
    let c = dynamic(10, 30, 31, RampType::Linear, RampCompletionAction::Stable);
    assert_eq!(c.validate(), Err(RatelimitError::InvalidRange));
}

#[test]
fn linear_stable_schedule() {
    let c = dynamic(10, 30, 10, RampType::Linear, RampCompletionAction::Stable);
    assert_eq!(c.validate(), Ok(()));
    let mut rl = Ratelimit::new(&c).unwrap();
    assert_eq!(rl.interval(), 5);
    assert_eq!(schedule(&mut rl, 6), vec![10, 20, 30, 30, 30, 30]);
}

#[test]
fn linear_ramp_stops_at_or_below_the_end() {
    let c = dynamic(10, 35, 10, RampType::Linear, RampCompletionAction::Stable);
    let mut rl = Ratelimit::new(&c).unwrap();
    assert_eq!(schedule(&mut rl, 4), vec![10, 20, 30, 30]);
}

#[test]
fn linear_loop_schedule() {
    let c = dynamic(10, 30, 10, RampType::Linear, RampCompletionAction::Loop);
    let mut rl = Ratelimit::new(&c).unwrap();
    assert_eq!(schedule(&mut rl, 7), vec![10, 20, 30, 10, 20, 30, 10]);
}

#[test]
fn linear_mirror_schedule() {
    let c = dynamic(10, 30, 10, RampType::Linear, RampCompletionAction::Mirror);
    let mut rl = Ratelimit::new(&c).unwrap();
    assert_eq!(schedule(&mut rl, 8), vec![10, 20, 30, 30, 20, 10, 10, 20]);
}

#[test]
fn shuffled_schedule_visits_each_step_once() {
    let c = dynamic(100, 500, 100, RampType::Shuffled, RampCompletionAction::Loop);
    let mut rl = Ratelimit::new(&c).unwrap();
    let first = schedule(&mut rl, 5);
    let again = schedule(&mut rl, 5);
    assert_eq!(first, again);
    let mut sorted = first.clone();
    sorted.sort();
    assert_eq!(sorted, vec![100, 200, 300, 400, 500]);
}

#[test]
fn shuffled_mirror_walks_back() {
    let c = dynamic(1, 4, 1, RampType::Shuffled, RampCompletionAction::Mirror);
    let mut rl = Ratelimit::new(&c).unwrap();
    let s = schedule(&mut rl, 8);
    let mut back = s[4..].to_vec();
    back.reverse();
    assert_eq!(s[..4].to_vec(), back);
}

#[test]
fn ratelimiter_params_of_rates() {
    let p = ratelimiter_params(1);
    assert_eq!((p.amount, p.interval_ns, p.max_tokens), (1, 1_000_000_000, 64));
    let p = ratelimiter_params(1_000);
    assert_eq!((p.amount, p.interval_ns, p.max_tokens), (1, 1_000_000, 64));
    let p = ratelimiter_params(1_000_000);
    assert_eq!((p.amount, p.interval_ns, p.max_tokens), (1, 1_000, 64));
    let p = ratelimiter_params(1_000_001);
    assert_eq!((p.amount, p.interval_ns, p.max_tokens), (2, 2_000, 128));
    let p = ratelimiter_params(5_000_000);
    assert_eq!((p.amount, p.interval_ns, p.max_tokens), (5, 1_000, 320));
}

#[test]
fn ramp_up_to_the_largest_rate() {
    let c = dynamic(u64::MAX - 20, u64::MAX, 10, RampType::Linear, RampCompletionAction::Loop);
    assert_eq!(c.validate(), Ok(()));
    let mut rl = Ratelimit::new(&c).unwrap();
    assert_eq!(schedule(&mut rl, 4), vec![u64::MAX - 20, u64::MAX - 10, u64::MAX, u64::MAX - 20]);
}

#[test]
fn workload_ratelimiter_follows_the_start_rate() {
    let off = RatelimitConfig::new(0, None, None, None, RampType::Linear, RampCompletionAction::Stable);
    assert_eq!(workload_ratelimiter(&off), None);
    let on = RatelimitConfig::new(1_000_001, None, None, None, RampType::Linear, RampCompletionAction::Stable);
    assert_eq!(workload_ratelimiter(&on), Some(ratelimiter_params(1_000_001)));
    let p = workload_ratelimiter(&on).unwrap();
    assert_eq!((p.amount, p.interval_ns, p.max_tokens), (2, 2_000, 128));
}

pub mod cache;
pub mod leaderboards;
pub mod oltp;
pub mod store;
pub mod topics;

use vstd::prelude::*;

verus! {

/// The default of the fields that default to one.
pub fn one() -> (r: usize)
    ensures
        r == 1,
{
    1
}

/// Anything that is drawn from a weighted choice.
pub trait Command {
    fn weight(&self) -> usize;
}

/// What the generated values are made of.
#[derive(Clone, Copy, Debug, PartialEq, Eq, Structural, Hash)]
pub enum ValueKind {
    I64,
    Bytes,
}

/// How keys (or topics, leaderboards, ids) are drawn.
#[derive(Clone, Copy, Debug, PartialEq, Eq, Structural)]
pub enum Distribution {
    Uniform,
    Zipf,
}

impl Default for Distribution {
    fn default() -> (r: Self)
        ensures
            r == Distribution::Uniform,
    {
        Distribution::Uniform
    }
}

/// A linear ramp raises the ratelimit from the start to the end value by
/// the step in order; a shuffled ramp visits the same stepwise ratelimits in
/// a random order.
#[derive(Clone, Copy, Debug, PartialEq, Eq, Structural)]
pub enum RampType {
    Linear,
    Shuffled,
}

impl Default for RampType {
    fn default() -> (r: Self)
        ensures
            r == RampType::Linear,
    {
        RampType::Linear
    }
}

/// Once the ramp is done the workload stays at the final value, loops over
/// the whole sequence again, or walks the sequence back in reverse.
#[derive(Clone, Copy, Debug, PartialEq, Eq, Structural)]
pub enum RampCompletionAction {
    Stable,
    Loop,
    Mirror,
}

impl Default for RampCompletionAction {
    fn default() -> (r: Self)
        ensures
            r == RampCompletionAction::Stable,
    {
        RampCompletionAction::Stable
    }
}

/// Why a ratelimit section was refused.
#[derive(Clone, Copy, Debug, PartialEq, Eq, Structural)]
pub enum RatelimitError {
    /// A dynamic ratelimit lacks one of `end`, `step` and `interval`.
    MissingParameters,
    /// The start or the step lies above the end.
    InvalidRange,
}

/// The ratelimit section of a workload: a fixed rate (`start`), or a
/// dynamic ramp from `start` to `end` by `step`, each held for `interval`
/// seconds.
#[derive(Clone, Copy, Debug)]
pub struct Ratelimit {
    start: u64,
    end: Option<u64>,
    step: Option<u64>,
    interval: Option<u64>,
    ramp: RampType,
    on_ramp_completion: RampCompletionAction,
}

impl Ratelimit {
    pub fn new(
        start: u64,
        end: Option<u64>,
        step: Option<u64>,
        interval: Option<u64>,
        ramp: RampType,
        on_ramp_completion: RampCompletionAction,
    ) -> (r: Self)
        ensures
            r.spec_start() == start,
            r.end() == end,
            r.step() == step,
            r.interval() == interval,
            r.ramp_type() == ramp,
            r.ramp_completion_action() == on_ramp_completion,
    {
        Ratelimit { start, end, step, interval, ramp, on_ramp_completion }
    }

    pub closed spec fn spec_start(&self) -> u64 {
        self.start
    }

    /// The starting rate, `None` when it is zero (no ratelimit).
    pub fn start(&self) -> (r: Option<u64>)
        ensures
            r == (if self.spec_start() == 0 { None } else { Some(self.spec_start()) }),
    {
        if self.start == 0 {
            None
        } else {
            Some(self.start)
        }
    }

    #[verifier::when_used_as_spec(spec_end)]
    pub fn end(&self) -> (r: Option<u64>)
        ensures
            r == self.spec_end(),
    {
        self.end
    }

    pub closed spec fn spec_end(&self) -> Option<u64> {
        self.end
    }

    #[verifier::when_used_as_spec(spec_step)]
    pub fn step(&self) -> (r: Option<u64>)
        ensures
            r == self.spec_step(),
    {
        self.step
    }

    pub closed spec fn spec_step(&self) -> Option<u64> {
        self.step
    }

    /// How long each rate of a dynamic ramp is held, in seconds.
    #[verifier::when_used_as_spec(spec_interval)]
    pub fn interval(&self) -> (r: Option<u64>)
        ensures
            r == self.spec_interval(),
    {
        self.interval
    }

    pub closed spec fn spec_interval(&self) -> Option<u64> {
        self.interval
    }

    #[verifier::when_used_as_spec(spec_ramp_type)]
    pub fn ramp_type(&self) -> (r: RampType)
        ensures
            r == self.spec_ramp_type(),
    {
        self.ramp
    }

    pub closed spec fn spec_ramp_type(&self) -> RampType {
        self.ramp
    }

    #[verifier::when_used_as_spec(spec_ramp_completion_action)]
    pub fn ramp_completion_action(&self) -> (r: RampCompletionAction)
        ensures
            r == self.spec_ramp_completion_action(),
    {
        self.on_ramp_completion
    }

    pub closed spec fn spec_ramp_completion_action(&self) -> RampCompletionAction {
        self.on_ramp_completion
    }

    /// A ratelimit is dynamic when any of `end`, `step` or `interval` is set.
    pub open spec fn spec_is_dynamic(&self) -> bool {
        self.spec_end() is Some || self.spec_step() is Some || self.spec_interval() is Some
    }

    #[verifier::when_used_as_spec(spec_is_dynamic)]
    pub fn is_dynamic(&self) -> (r: bool)
        ensures
            r == self.spec_is_dynamic(),
    {
        self.end.is_some() || self.step.is_some() || self.interval.is_some()
    }

    /// What `validate` finds: a static ratelimit is always accepted; a
    /// dynamic one needs all of `end`, `step` and `interval`, and neither
    /// the start nor the step may exceed the end.
    pub open spec fn spec_validate(&self) -> Result<(), RatelimitError> {
        if !self.spec_is_dynamic() {
            Ok(())
        } else if !(self.spec_end() is Some && self.spec_step() is Some
            && self.spec_interval() is Some) {
            Err(RatelimitError::MissingParameters)
        } else if self.spec_start() > self.spec_end().unwrap() || self.spec_step().unwrap()
            > self.spec_end().unwrap() {
            Err(RatelimitError::InvalidRange)
        } else {
            Ok(())
        }
    }

    /// Checks the section; the caller reports the error and stops.
    pub fn validate(&self) -> (r: Result<(), RatelimitError>)
        ensures
            r == self.spec_validate(),
    {
        if !self.is_dynamic() {
            return Ok(());
        }
        if !(self.end.is_some() && self.step.is_some() && self.interval.is_some()) {
            return Err(RatelimitError::MissingParameters);
        }
        let end: u64 = self.end.unwrap();
        if self.start > end || self.step.unwrap() > end {
            return Err(RatelimitError::InvalidRange);
        }
        Ok(())
    }
}

/// The workload section of a configuration.
#[derive(Clone, Debug)]
pub struct Workload {
    pub keyspace: Vec<cache::Keyspace>,
    pub stores: Vec<store::Store>,
    pub topics: Vec<topics::Topics>,
    pub oltp: Option<oltp::Oltp>,
    pub leaderboards: Vec<leaderboards::LeaderboardsConfig>,
    pub threads: usize,
    pub ratelimit: Ratelimit,
}

impl Workload {
    pub fn keyspaces(&self) -> (r: &Vec<cache::Keyspace>)
        ensures
            r == &self.keyspace,
    {
        &self.keyspace
    }

    pub fn stores(&self) -> (r: &Vec<store::Store>)
        ensures
            r == &self.stores,
    {
        &self.stores
    }

    pub fn topics(&self) -> (r: &Vec<topics::Topics>)
        ensures
            r == &self.topics,
    {
        &self.topics
    }

    pub fn oltp(&self) -> (r: Option<&oltp::Oltp>)
        ensures
            r == (match self.oltp {
                Some(o) => Some(&o),
                None => None,
            }),
    {
        match &self.oltp {
            Some(o) => Some(o),
            None => None,
        }
    }

    pub fn threads(&self) -> (r: usize)
        ensures
            r == self.threads,
    {
        self.threads
    }

    pub fn ratelimit(&self) -> (r: &Ratelimit)
        ensures
            r == &self.ratelimit,
    {
        &self.ratelimit
    }

    pub fn leaderboards(&self) -> (r: &Vec<leaderboards::LeaderboardsConfig>)
        ensures
            r == &self.leaderboards,
    {
        &self.leaderboards
    }
}

} // verus!

use crate::config::workload::{Command, Distribution};
use vstd::prelude::*;

verus! {

/// The order of a leaderboard read.
#[derive(Clone, Copy, Debug, PartialEq, Eq, Structural, Hash)]
pub enum LeaderboardOrder {
    Ascending,
    Descending,
}

impl Default for LeaderboardOrder {
    fn default() -> (r: Self)
        ensures
            r == LeaderboardOrder::Ascending,
    {
        LeaderboardOrder::Ascending
    }
}

/// One weighted command of a leaderboard workload.
#[derive(Clone, Copy, Debug, PartialEq, Eq, Structural)]
pub enum LeaderboardCommand {
    Delete { weight: usize },
    GetRank { cardinality: usize, order: LeaderboardOrder, weight: usize },
    GetByRank { cardinality: usize, order: LeaderboardOrder, weight: usize },
    GetByScore { cardinality: usize, offset: usize, order: LeaderboardOrder, weight: usize },
    Length { weight: usize },
    Remove { cardinality: usize, weight: usize },
    Upsert { cardinality: usize, weight: usize },
}

impl LeaderboardCommand {
    pub open spec fn spec_weight(self) -> usize {
        match self {
            LeaderboardCommand::Delete { weight } => weight,
            LeaderboardCommand::GetRank { weight, .. } => weight,
            LeaderboardCommand::GetByRank { weight, .. } => weight,
            LeaderboardCommand::GetByScore { weight, .. } => weight,
            LeaderboardCommand::Length { weight } => weight,
            LeaderboardCommand::Remove { weight, .. } => weight,
            LeaderboardCommand::Upsert { weight, .. } => weight,
        }
    }
}

impl Command for LeaderboardCommand {
    fn weight(&self) -> (r: usize)
        ensures
            r == self.spec_weight(),
    {
        match self {
            LeaderboardCommand::Delete { weight } => *weight,
            LeaderboardCommand::GetRank { weight, .. } => *weight,
            LeaderboardCommand::GetByRank { weight, .. } => *weight,
            LeaderboardCommand::GetByScore { weight, .. } => *weight,
            LeaderboardCommand::Length { weight } => *weight,
            LeaderboardCommand::Remove { weight, .. } => *weight,
            LeaderboardCommand::Upsert { weight, .. } => *weight,
        }
    }
}

/// A leaderboard workload.
#[derive(Clone, Debug)]
pub struct LeaderboardsConfig {
    pub leaderboards: usize,
    pub name_length: usize,
    pub distribution: Distribution,
    pub weight: usize,
    pub commands: Vec<LeaderboardCommand>,
    pub ids: usize,
    pub id_distribution: Distribution,
}

} // verus!

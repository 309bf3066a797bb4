use crate::config::workload as config;
use crate::config::workload::leaderboards::{LeaderboardCommand, LeaderboardOrder, LeaderboardsConfig};
use crate::workload::cache::{weights_accepted, WorkloadError};
use crate::workload::distribution::{is_zipf, Distribution};
use crate::workload::keys::{alphanumeric_name, generate_unique_keys, keys_as_strings, MAX_DRAWS};
use crate::workload::rng::{
    rng_from_seed, rng_seed, rng_u32, weighted_choice_len, weighted_choice_new,
    weighted_choice_sample, weighted_choice_weights, WeightedChoice,
};
use crate::workload::ClientWorkItemKind;
use rand_xoshiro::Xoshiro512PlusPlus;
use std::collections::HashSet;
use std::ops::Range;
use vstd::prelude::*;
use zipf::ZipfDistribution;

verus! {

broadcast use vstd::std_specs::hash::group_hash_axioms;

/// A request of the leaderboard workload. The scores of an upsert are drawn
/// where the request is sent, so an upsert carries the ids to upsert.
#[derive(Clone, Debug, PartialEq)]
pub enum LeaderboardRequest {
    GetRank { leaderboard: String, ids: Vec<u32>, order: LeaderboardOrder },
    GetByRank { leaderboard: String, range: Option<Range<u32>>, order: LeaderboardOrder },
    Upsert { leaderboard: String, ids: Vec<u32> },
    Delete { leaderboard: String },
    GetByScore { leaderboard: String, offset: u32, limit: u32, order: LeaderboardOrder },
    Length { leaderboard: String },
    Remove { leaderboard: String, ids: Vec<u32> },
}

/// How many distinct ids a command names: at least one, for the commands
/// that name ids; none for the others.
pub open spec fn ids_named(c: LeaderboardCommand) -> nat {
    match c {
        LeaderboardCommand::GetRank { cardinality, .. } => if cardinality == 0 { 1 } else { cardinality as nat },
        LeaderboardCommand::Upsert { cardinality, .. } => if cardinality == 0 { 1 } else { cardinality as nat },
        LeaderboardCommand::Remove { cardinality, .. } => if cardinality == 0 { 1 } else { cardinality as nat },
        _ => 0,
    }
}

/// The number of ids of a workload: at least one.
pub open spec fn id_count(w: LeaderboardsConfig) -> nat {
    if w.ids == 0 { 1 } else { w.ids as nat }
}

/// The length of the leaderboard names: the configured length, at least
/// one, and at least `min_name_len`.
pub open spec fn leaderboard_name_len(w: LeaderboardsConfig, min_name_len: usize) -> nat {
    let floor: nat = if w.name_length == 0 { 1 } else { w.name_length as nat };
    if floor > min_name_len { floor } else { min_name_len as nat }
}

/// The ids each command names fit in the workload's ids (else drawing them
/// would never end).
pub open spec fn leaderboard_cardinalities_fit(w: LeaderboardsConfig) -> bool {
    forall|i: int| 0 <= i < w.commands@.len() ==> ids_named(#[trigger] w.commands@[i]) <= id_count(w)
}

/// Whether the ids each command of a workload names fit in its ids.
pub fn leaderboard_cardinalities_fit_check(w: &LeaderboardsConfig) -> (r: bool)
    ensures
        r == leaderboard_cardinalities_fit(*w),
{
    let n: usize = if w.ids == 0 { 1 } else { w.ids };
    let mut i: usize = 0;
    while i < w.commands.len()
        invariant
            i <= w.commands@.len(),
            n == id_count(*w),
            forall|j: int| 0 <= j < i ==> ids_named(#[trigger] w.commands@[j]) <= n,
        decreases w.commands@.len() - i,
    {
        let named: usize = match w.commands[i] {
            LeaderboardCommand::GetRank { cardinality, .. } => if cardinality == 0 { 1 } else { cardinality },
            LeaderboardCommand::Upsert { cardinality, .. } => if cardinality == 0 { 1 } else { cardinality },
            LeaderboardCommand::Remove { cardinality, .. } => if cardinality == 0 { 1 } else { cardinality },
            _ => 0,
        };
        if named > n {
            return false;
        }
        i = i + 1;
    }
    true
}

pub open spec fn leaderboard_weights(commands: Seq<LeaderboardCommand>) -> Seq<usize> {
    commands.map_values(|c: LeaderboardCommand| c.spec_weight())
}

/// Ids without duplicates that hold every id of a pool without duplicates
/// are at least as many.
proof fn lemma_cover_ids(out: Seq<u32>, pool: Seq<u32>)
    requires
        pool.no_duplicates(),
        forall|q: int| 0 <= q < pool.len() ==> out.contains(#[trigger] pool[q]),
    ensures
        out.len() >= pool.len(),
{
    pool.unique_seq_to_set();
    out.lemma_cardinality_of_set();
    assert(pool.to_set().subset_of(out.to_set())) by {
        assert forall|x: u32| pool.to_set().contains(x) implies out.to_set().contains(x) by {
            let q = choose|q: int| 0 <= q < pool.len() && pool[q] == x;
            assert(out.contains(pool[q]));
        }
    }
    vstd::set_lib::lemma_len_subset(pool.to_set(), out.to_set());
}

/// Draws `u32`s until `n` distinct ones are held, in the order they were
/// first drawn. If `MAX_DRAWS` draws do not get there, the ids `0, 1, 2,
/// ...` not yet held complete the set; `None` only when `n` exceeds the
/// number of `u32` values.
fn draw_distinct_ids(rng: &mut Xoshiro512PlusPlus, n: usize) -> (r: Option<Vec<u32>>)
    ensures
        n <= 0x1_0000_0000 ==> r is Some,
        r matches Some(ids) ==> ids@.len() == n && ids@.no_duplicates(),
{
    let mut ids: Vec<u32> = Vec::new();
    let mut held: HashSet<u32> = HashSet::new();
    let mut draws: u64 = 0;
    while ids.len() < n && draws < MAX_DRAWS
        invariant
            ids@.len() <= n,
            ids@.no_duplicates(),
            held@ == ids@.to_set(),
        decreases MAX_DRAWS - draws,
    {
        draws = draws + 1;
        let id = rng_u32(rng);
        if held.insert(id) {
            let ghost before = ids@;
            ids.push(id);
            proof {
                assert(!before.to_set().contains(id));
                assert(ids@ == before.push(id));
                before.lemma_push_to_set_commute(id);
            }
        }
    }
    // completion with the smallest ids
    let mut m: usize = 0;
    while ids.len() < n && m < n
        invariant
            ids@.len() <= n,
            m <= n,
            ids@.no_duplicates(),
            held@ == ids@.to_set(),
            forall|j: int| 0 <= j < m ==> ids@.contains(#[trigger] (j as u32)),
        decreases n - m,
    {
        let id: u32 = m as u32;
        let ghost before = ids@;
        if held.insert(id) {
            ids.push(id);
            proof {
                assert(!before.to_set().contains(id));
                assert(ids@ == before.push(id));
                before.lemma_push_to_set_commute(id);
                assert forall|j: int| 0 <= j <= m implies ids@.contains(#[trigger] (j as u32)) by {
                    if j < m {
                        let p = choose|p: int| 0 <= p < before.len() && before[p] == j as u32;
                        assert(ids@[p] == before[p]);
                    } else {
                        assert(ids@[before.len() as int] == id);
                    }
                }
            }
        } else {
            assert(before.to_set().contains(id));
            assert(ids@.contains(m as u32));
        }
        m = m + 1;
    }
    if ids.len() < n {
        proof {
            if n <= 0x1_0000_0000 {
                let pool = Seq::new(n as nat, |j: int| j as u32);
                assert(pool.no_duplicates()) by {
                    assert forall|a: int, b: int| 0 <= a < pool.len() && 0 <= b < pool.len() && a != b implies pool[a] != pool[b] by {
                        assert(pool[a] == a as u32 && pool[b] == b as u32);
                    }
                }
                assert forall|q: int| 0 <= q < pool.len() implies ids@.contains(#[trigger] pool[q]) by {
                    assert(pool[q] == q as u32);
                }
                lemma_cover_ids(ids@, pool);
            }
        }
        return None;
    }
    Some(ids)
}

/// A leaderboard workload: leaderboard names, weighted commands, and the
/// ids of the elements that commands name.
#[derive(Clone)]
pub struct LeaderboardsWorkload {
    pub leaderboards: Vec<String>,
    pub leaderboard_dist: Distribution,
    pub commands: Vec<LeaderboardCommand>,
    pub command_dist: WeightedChoice,
    pub ids: Vec<u32>,
    pub id_dist: Distribution,
}

impl LeaderboardsWorkload {
    pub open spec fn wf(&self) -> bool {
        &&& self.leaderboard_dist.wf()
        &&& self.leaderboard_dist.spec_len() == self.leaderboards@.len()
        &&& weighted_choice_weights(self.command_dist) == leaderboard_weights(self.commands@)
        &&& self.id_dist.wf()
        &&& self.id_dist.spec_len() == self.ids@.len()
        &&& self.ids@.no_duplicates()
        &&& forall|i: int| 0 <= i < self.commands@.len() ==> ids_named(#[trigger] self.commands@[i]) <= self.ids@.len()
    }

    /// One of the leaderboard names.
    pub open spec fn has_leaderboard(&self, s: Seq<char>) -> bool {
        exists|i: int| 0 <= i < self.leaderboards@.len() && s == (#[trigger] self.leaderboards@[i])@
    }

    /// `count` distinct ids of the workload.
    pub open spec fn ids_ok(&self, ids: Seq<u32>, count: nat) -> bool {
        &&& ids.len() == count
        &&& ids.no_duplicates()
        &&& forall|i: int| 0 <= i < ids.len() ==> self.ids@.contains(#[trigger] ids[i])
    }

    /// Builds the workload from the initial seed: at least one leaderboard
    /// and one id; names of `max(1, name_length, min_name_len)` alphanumeric
    /// characters, distinct, drawn from a generator whose seed is drawn from
    /// one seeded with the initial seed; then distinct `u32` ids drawn from
    /// the name generator. `min_name_len` is the length the number of
    /// leaderboards asks for (the base-62 logarithm of that number, rounded
    /// up).
    pub fn new(
        initial_seed: [u8; 64],
        workload: &LeaderboardsConfig,
        min_name_len: usize,
        leaderboard_zipf: Option<ZipfDistribution>,
        id_zipf: Option<ZipfDistribution>,
    ) -> (r: Result<Self, WorkloadError>)
        requires
            leaderboard_cardinalities_fit(*workload),
            workload.distribution == config::Distribution::Zipf ==> leaderboard_zipf is Some,
            workload.id_distribution == config::Distribution::Zipf ==> id_zipf is Some,
        ensures
            r matches Ok(w) ==> {
                let name_len = leaderboard_name_len(*workload, min_name_len);
                &&& w.wf()
                &&& w.leaderboard_dist.is_uniform() == (workload.distribution != config::Distribution::Zipf)
                &&& w.id_dist.is_uniform() == (workload.id_distribution != config::Distribution::Zipf)
                &&& w.leaderboards@.len() == (if workload.leaderboards == 0 { 1 } else { workload.leaderboards as nat })
                &&& forall|i: int| 0 <= i < w.leaderboards@.len()
                    ==> vstd::utf8::encode_utf8((#[trigger] w.leaderboards@[i])@).len() == name_len
                &&& forall|i: int| 0 <= i < w.leaderboards@.len()
                    ==> alphanumeric_name((#[trigger] w.leaderboards@[i])@, name_len)
                &&& forall|i: int, j: int| 0 <= i < j < w.leaderboards@.len()
                    ==> w.leaderboards@[i]@ != w.leaderboards@[j]@
                &&& w.commands@ == workload.commands@
                &&& w.ids@.len() == id_count(*workload)
                &&& w.ids@.no_duplicates()
                &&& weighted_choice_weights(w.command_dist) == leaderboard_weights(workload.commands@)
            },
            !weights_accepted(leaderboard_weights(workload.commands@)) ==> r is Err,
            weights_accepted(leaderboard_weights(workload.commands@)) && (if workload.leaderboards == 0 {
                1
            } else {
                workload.leaderboards as int
            }) <= vstd::arithmetic::power::pow(62, leaderboard_name_len(*workload, min_name_len))
                && id_count(*workload) <= 0x1_0000_0000 ==> r is Ok,
            r matches Err(e) ==> (e == WorkloadError::InvalidWeights ==> !weights_accepted(leaderboard_weights(workload.commands@))),
            r matches Err(e) ==> (weights_accepted(leaderboard_weights(workload.commands@)) ==> e == WorkloadError::NotEnoughDistinctKeys),
    {
        let n_leaderboards: usize = if workload.leaderboards == 0 { 1 } else { workload.leaderboards };
        let floor: usize = if workload.name_length == 0 { 1 } else { workload.name_length };
        let name_len: usize = if floor > min_name_len { floor } else { min_name_len };
        let n_ids: usize = if workload.ids == 0 { 1 } else { workload.ids };

        let mut rng = rng_from_seed(initial_seed);
        let name_seed = rng_seed(&mut rng);
        let mut rng = rng_from_seed(name_seed);
        let names = match generate_unique_keys(&mut rng, n_leaderboards, name_len) {
            Some(names) => names,
            None => return Err(WorkloadError::NotEnoughDistinctKeys),
        };
        let leaderboards = keys_as_strings(names, Ghost(name_len as nat));
        let leaderboard_dist = if is_zipf(workload.distribution) {
            match leaderboard_zipf {
                Some(z) => Distribution::zipf(z, n_leaderboards),
                None => Distribution::uniform(n_leaderboards),
            }
        } else {
            Distribution::uniform(n_leaderboards)
        };

        let commands = workload.commands.clone();
        assert(commands@ =~= workload.commands@);
        let mut weights: Vec<usize> = Vec::new();
        let mut i: usize = 0;
        while i < commands.len()
            invariant
                i <= commands@.len(),
                weights@.len() == i,
                forall|j: int| 0 <= j < i ==> #[trigger] weights@[j] == commands@[j].spec_weight(),
            decreases commands@.len() - i,
        {
            let w: usize = match commands[i] {
                LeaderboardCommand::Delete { weight } => weight,
                LeaderboardCommand::GetRank { weight, .. } => weight,
                LeaderboardCommand::GetByRank { weight, .. } => weight,
                LeaderboardCommand::GetByScore { weight, .. } => weight,
                LeaderboardCommand::Length { weight } => weight,
                LeaderboardCommand::Remove { weight, .. } => weight,
                LeaderboardCommand::Upsert { weight, .. } => weight,
            };
            weights.push(w);
            i = i + 1;
        }
        assert(weights@ =~= leaderboard_weights(workload.commands@));
        let command_dist = match weighted_choice_new(weights) {
            Some(d) => d,
            None => return Err(WorkloadError::InvalidWeights),
        };

        let ids = match draw_distinct_ids(&mut rng, n_ids) {
            Some(ids) => ids,
            None => return Err(WorkloadError::NotEnoughDistinctKeys),
        };
        let id_dist = if is_zipf(workload.id_distribution) {
            match id_zipf {
                Some(z) => Distribution::zipf(z, n_ids),
                None => Distribution::uniform(n_ids),
            }
        } else {
            Distribution::uniform(n_ids)
        };
        let w = LeaderboardsWorkload { leaderboards, leaderboard_dist, commands, command_dist, ids, id_dist };
        assert forall|i: int| 0 <= i < w.commands@.len() implies ids_named(#[trigger] w.commands@[i]) <= w.ids@.len() by {
            assert(w.commands@[i] == workload.commands@[i]);
        }
        Ok(w)
    }

    /// Draws a leaderboard name.
    pub fn leaderboard_name(&self, rng: &mut Xoshiro512PlusPlus) -> (r: String)
        requires
            self.wf(),
        ensures
            self.has_leaderboard(r@),
    {
        let index = self.leaderboard_dist.sample(rng);
        let name = self.leaderboards[index].clone();
        assert(name@ == self.leaderboards@[index as int]@);
        name
    }

    /// Draws a command by weight: never one of weight zero.
    pub fn command(&self, rng: &mut Xoshiro512PlusPlus) -> (r: LeaderboardCommand)
        requires
            self.wf(),
        ensures
            self.commands@.contains(r),
            r.spec_weight() > 0,
    {
        let index = weighted_choice_sample(&self.command_dist, rng);
        let c = self.commands[index];
        assert(self.commands@[index as int] == c);
        assert(leaderboard_weights(self.commands@)[index as int] == c.spec_weight());
        c
    }

    /// Draws ids until `count` distinct ones are held, in the order they
    /// were first drawn. If `MAX_DRAWS` draws do not get there, they are
    /// completed with the workload's ids in order.
    pub fn get_ids(&self, count: usize, rng: &mut Xoshiro512PlusPlus) -> (r: Vec<u32>)
        requires
            self.wf(),
            count <= self.ids@.len(),
        ensures
            self.ids_ok(r@, count as nat),
    {
        let mut out: Vec<u32> = Vec::new();
        let mut held: HashSet<u32> = HashSet::new();
        let mut draws: u64 = 0;
        while out.len() < count && draws < MAX_DRAWS
            invariant
                self.wf(),
                count <= self.ids@.len(),
                out@.len() <= count,
                out@.no_duplicates(),
                held@ == out@.to_set(),
                forall|j: int| 0 <= j < out@.len() ==> self.ids@.contains(#[trigger] out@[j]),
            decreases MAX_DRAWS - draws,
        {
            draws = draws + 1;
            let id = self.ids[self.id_dist.sample(rng)];
            if held.insert(id) {
                let ghost before = out@;
                out.push(id);
                proof {
                    assert(!before.to_set().contains(id));
                    assert(out@ == before.push(id));
                    before.lemma_push_to_set_commute(id);
                }
            }
        }
        // completion in the workload's order
        let mut k: usize = 0;
        while out.len() < count
            invariant
                self.wf(),
                count <= self.ids@.len(),
                out@.len() <= count,
                k <= self.ids@.len(),
                out@.no_duplicates(),
                held@ == out@.to_set(),
                forall|j: int| 0 <= j < out@.len() ==> self.ids@.contains(#[trigger] out@[j]),
                forall|q: int| 0 <= q < k ==> out@.contains(#[trigger] self.ids@[q]),
            ensures
                out@.len() == count,
            decreases self.ids@.len() - k,
        {
            if k == self.ids.len() {
                proof {
                    self.lemma_cover(out@);
                }
                break;
            }
            let id = self.ids[k];
            if held.insert(id) {
                let ghost before = out@;
                out.push(id);
                proof {
                    assert(!before.to_set().contains(id));
                    assert(out@ == before.push(id));
                    before.lemma_push_to_set_commute(id);
                    assert forall|q: int| 0 <= q <= k implies out@.contains(#[trigger] self.ids@[q]) by {
                        if q < k {
                            let p = choose|p: int| 0 <= p < before.len() && before[p] == self.ids@[q];
                            assert(out@[p] == self.ids@[q]);
                        } else {
                            assert(out@[before.len() as int] == id);
                        }
                    }
                }
            } else {
                assert(out@.to_set().contains(id));
                assert(out@.contains(self.ids@[k as int]));
            }
            k = k + 1;
        }
        out
    }

    /// Ids without duplicates that hold every id of the workload are at
    /// least as many.
    proof fn lemma_cover(&self, out: Seq<u32>)
        requires
            self.ids@.no_duplicates(),
            forall|q: int| 0 <= q < self.ids@.len() ==> out.contains(#[trigger] self.ids@[q]),
        ensures
            out.len() >= self.ids@.len(),
    {
        lemma_cover_ids(out, self.ids@);
    }

    /// The request a command asks of a leaderboard.
    pub open spec fn request_ok(&self, c: LeaderboardCommand, req: LeaderboardRequest) -> bool {
        match c {
            LeaderboardCommand::GetRank { order, .. } => req matches LeaderboardRequest::GetRank { leaderboard, ids, order: o }
                && self.has_leaderboard(leaderboard@) && o == order && self.ids_ok(ids@, ids_named(c)),
            LeaderboardCommand::GetByRank { cardinality, order, .. } => req matches LeaderboardRequest::GetByRank { leaderboard, range, order: o }
                && self.has_leaderboard(leaderboard@) && o == order
                && range == Some(Range { start: 0u32, end: cardinality as u32 }),
            LeaderboardCommand::Upsert { .. } => req matches LeaderboardRequest::Upsert { leaderboard, ids }
                && self.has_leaderboard(leaderboard@) && self.ids_ok(ids@, ids_named(c)),
            LeaderboardCommand::Delete { .. } => req matches LeaderboardRequest::Delete { leaderboard }
                && self.has_leaderboard(leaderboard@),
            LeaderboardCommand::GetByScore { cardinality, offset, order, .. } => req matches LeaderboardRequest::GetByScore { leaderboard, offset: o, limit, order: ord }
                && self.has_leaderboard(leaderboard@) && o == offset as u32 && limit == cardinality as u32 && ord == order,
            LeaderboardCommand::Length { .. } => req matches LeaderboardRequest::Length { leaderboard }
                && self.has_leaderboard(leaderboard@),
            LeaderboardCommand::Remove { .. } => req matches LeaderboardRequest::Remove { leaderboard, ids }
                && self.has_leaderboard(leaderboard@) && self.ids_ok(ids@, ids_named(c)),
        }
    }

    /// Draws a leaderboard, then a command by weight, and generates the
    /// command's request on that leaderboard, numbered `sequence`. Counts
    /// and offsets are narrowed to `u32` as the request carries them.
    pub fn generate_request(&self, rng: &mut Xoshiro512PlusPlus, sequence: u64) -> (r: ClientWorkItemKind<LeaderboardRequest>)
        requires
            self.wf(),
        ensures
            r matches ClientWorkItemKind::Request { request, sequence: s } && s == sequence && exists|i: int|
                0 <= i < self.commands@.len() && (#[trigger] self.commands@[i]).spec_weight() > 0
                    && self.request_ok(self.commands@[i], request),
    {
        let leaderboard = self.leaderboard_name(rng);
        let command = self.command(rng);
        assert(self.commands@.contains(command));
        let ghost ci = choose|i: int| 0 <= i < self.commands@.len() && self.commands@[i] == command;
        assert(ids_named(self.commands@[ci]) <= self.ids@.len());
        let request = match command {
            LeaderboardCommand::GetRank { cardinality, order, .. } => LeaderboardRequest::GetRank {
                leaderboard,
                ids: self.get_ids(if cardinality == 0 { 1 } else { cardinality }, rng),
                order,
            },
            LeaderboardCommand::GetByRank { cardinality, order, .. } => LeaderboardRequest::GetByRank {
                leaderboard,
                range: Some(Range { start: 0u32, end: cardinality as u32 }),
                order,
            },
            LeaderboardCommand::Upsert { cardinality, .. } => LeaderboardRequest::Upsert {
                leaderboard,
                ids: self.get_ids(if cardinality == 0 { 1 } else { cardinality }, rng),
            },
            LeaderboardCommand::Delete { .. } => LeaderboardRequest::Delete { leaderboard },
            LeaderboardCommand::GetByScore { cardinality, offset, order, .. } => LeaderboardRequest::GetByScore {
                leaderboard,
                offset: offset as u32,
                limit: cardinality as u32,
                order,
            },
            LeaderboardCommand::Length { .. } => LeaderboardRequest::Length { leaderboard },
            LeaderboardCommand::Remove { cardinality, .. } => LeaderboardRequest::Remove {
                leaderboard,
                ids: self.get_ids(if cardinality == 0 { 1 } else { cardinality }, rng),
            },
        };
        assert(self.request_ok(self.commands@[ci], request));
        ClientWorkItemKind::Request { request, sequence }
    }
}

} // verus!

use crate::config::workload as config;
use crate::config::workload::{RampCompletionAction, RampType};
use crate::workload::rng::shuffle_with_thread_rng;
use vstd::prelude::*;

verus! {

/// The stepwise rates from `start` up to `end`: `start`, `start + step`, ...,
/// as long as they do not exceed `end`.
pub open spec fn is_linear_ramp(s: Seq<u64>, start: u64, end: u64, step: u64) -> bool {
    &&& s.len() >= 1
    &&& forall|i: int| 0 <= i < s.len() ==> #[trigger] s[i] == start + i * step
    &&& start + (s.len() - 1) * step <= end
    &&& end < start + s.len() * step
}

/// What a config must hold for a dynamic ratelimit to be built from it: it
/// passes `validate`, and its start and step are not zero.
pub open spec fn buildable(c: config::Ratelimit) -> bool {
    c.spec_is_dynamic() ==> {
        &&& c.spec_validate() is Ok
        &&& c.spec_start() != 0
        &&& c.spec_step().unwrap() != 0
    }
}

/// The index that follows `idx` in a schedule of `len` rates: it wraps
/// around for `Loop` and `Mirror`, and stays on the last rate for `Stable`.
pub open spec fn next_index(idx: nat, len: nat, action: RampCompletionAction) -> nat {
    if idx + 1 == len {
        if action == RampCompletionAction::Stable {
            idx
        } else {
            0
        }
    } else {
        idx + 1
    }
}

/// The index after `k` calls of `next_ratelimit` starting from `idx`.
pub open spec fn index_after(idx: nat, len: nat, action: RampCompletionAction, k: nat) -> nat
    decreases k,
{
    if k == 0 {
        idx
    } else {
        next_index(index_after(idx, len, action, (k - 1) as nat), len, action)
    }
}

/// A dynamic ratelimit schedule: the rates to apply in turn, each held for
/// `interval` seconds.
#[derive(Debug)]
pub struct Ratelimit {
    limits: Vec<u64>,
    interval: u64,
    ramp_completion_action: RampCompletionAction,
    current_idx: usize,
}

impl Ratelimit {
    #[verifier::type_invariant]
    closed spec fn wf(self) -> bool {
        &&& self.limits@.len() > 0
        &&& self.current_idx < self.limits@.len()
    }

    /// The rates of the schedule in the order they are applied.
    pub closed spec fn limits(self) -> Seq<u64> {
        self.limits@
    }

    /// The position of the rate that `next_ratelimit` returns next.
    pub closed spec fn current(self) -> nat {
        self.current_idx as nat
    }

    pub closed spec fn action(self) -> RampCompletionAction {
        self.ramp_completion_action
    }

    pub closed spec fn spec_interval(self) -> u64 {
        self.interval
    }

    /// Builds the schedule of a dynamic ratelimit; `None` for a static one.
    /// The stepwise rates from `start` to `end` come first, in order for a
    /// linear ramp and in a random order for a shuffled one; `Mirror`
    /// appends them again in reverse.
    pub fn new(c: &config::Ratelimit) -> (r: Option<Self>)
        requires
            buildable(*c),
        ensures
            r is None <==> !c.spec_is_dynamic(),
            r matches Some(rl) ==> {
                let n = if rl.action() == RampCompletionAction::Mirror {
                    rl.limits().len() / 2
                } else {
                    rl.limits().len()
                };
                let first = rl.limits().subrange(0, n as int);
                &&& rl.spec_interval() == c.spec_interval().unwrap()
                &&& rl.action() == c.spec_ramp_completion_action()
                &&& rl.current() == 0
                &&& c.spec_ramp_type() == RampType::Linear ==> is_linear_ramp(
                    first,
                    c.spec_start(),
                    c.spec_end().unwrap(),
                    c.spec_step().unwrap(),
                )
                &&& c.spec_ramp_type() == RampType::Shuffled ==> exists|base: Seq<u64>|
                    is_linear_ramp(base, c.spec_start(), c.spec_end().unwrap(), c.spec_step().unwrap())
                        && #[trigger] base.to_multiset() == first.to_multiset()
                        && base.len() == first.len()
                &&& rl.action() == RampCompletionAction::Mirror ==> rl.limits() == first + first.reverse()
                &&& rl.action() != RampCompletionAction::Mirror ==> rl.limits() == first
            },
    {
        if !c.is_dynamic() {
            return None;
        }
        let start: u64 = c.start().unwrap();
        let end: u64 = c.end().unwrap();
        let step: u64 = c.step().unwrap();
        let interval: u64 = c.interval().unwrap();
        let ramp_type = c.ramp_type();
        let ramp_completion_action = c.ramp_completion_action();

        // the stepwise rates from start to end
        let mut limits: Vec<u64> = Vec::new();
        let mut i: u64 = start;
        assert(start + limits@.len() * step == start) by (nonlinear_arith)
            requires
                limits@.len() == 0,
        ;
        loop
            invariant_except_break
                i == start + limits@.len() * step,
            invariant
                start <= i <= end,
                step != 0,
                forall|j: int| 0 <= j < limits@.len() ==> #[trigger] limits@[j] == start + j * step,
            ensures
                is_linear_ramp(limits@, start, end, step),
            decreases end - i,
        {
            proof {
                assert((start + limits@.len() * step) + step == start + (limits@.len() + 1) * step)
                    by (nonlinear_arith);
            }
            limits.push(i);
            if end - i < step {
                break;
            }
            i = i + step;
        }
        let ghost base = limits@;

        if ramp_type == RampType::Shuffled {
            shuffle_with_thread_rng(&mut limits);
        }
        let ghost first = limits@;
        let n: usize = limits.len();

        // a mirrored schedule walks the rates back in reverse
        if ramp_completion_action == RampCompletionAction::Mirror {
            let mut j: usize = n;
            while j > 0
                invariant
                    j <= n,
                    n == first.len(),
                    limits@.len() == n + (n - j),
                    limits@.subrange(0, n as int) == first,
                    forall|t: int| 0 <= t < n - j ==> #[trigger] limits@[n + t] == first[n - 1 - t],
                decreases j,
            {
                let x: u64 = limits[j - 1];
                limits.push(x);
                j = j - 1;
            }
            assert forall|t: int| 0 <= t < limits@.len() implies #[trigger] limits@[t] == (first
                + first.reverse())[t] by {
                if t < n {
                    assert(limits@[t] == limits@.subrange(0, n as int)[t]);
                } else {
                    assert(limits@[n + (t - n)] == first[n - 1 - (t - n)]);
                }
            }
            assert(limits@ =~= first + first.reverse());
        } else {
            assert(limits@ =~= first);
        }
        proof {
            if ramp_type == RampType::Shuffled {
                assert(base.to_multiset() == first.to_multiset());
            }
            assert(first.len() == base.len());
            if ramp_completion_action == RampCompletionAction::Mirror {
                assert(limits@.len() / 2 == n);
            }
            assert(limits@.subrange(0, n as int) =~= first);
        }
        Some(Ratelimit { limits, interval, ramp_completion_action, current_idx: 0 })
    }

    /// A copy of the schedule, at the same position.
    pub fn clone(&self) -> (r: Self)
        ensures
            r.limits() == self.limits(),
            r.current() == self.current(),
            r.action() == self.action(),
            r.spec_interval() == self.spec_interval(),
    {
        proof {
            use_type_invariant(self);
        }
        Ratelimit {
            limits: self.limits.clone(),
            interval: self.interval,
            ramp_completion_action: self.ramp_completion_action,
            current_idx: self.current_idx,
        }
    }

    /// How long each rate is held, in seconds.
    pub fn interval(&self) -> (r: u64)
        ensures
            r == self.spec_interval(),
    {
        self.interval
    }

    /// Returns the current rate and moves on to the next one: past the end
    /// the schedule starts over for `Loop` and `Mirror`, and stays on its
    /// final rate for `Stable`.
    pub fn next_ratelimit(&mut self) -> (r: u64)
        ensures
            r == old(self).limits()[old(self).current() as int],
            final(self).limits() == old(self).limits(),
            final(self).action() == old(self).action(),
            final(self).spec_interval() == old(self).spec_interval(),
            final(self).current() == next_index(
                old(self).current(),
                old(self).limits().len(),
                old(self).action(),
            ),
            final(self).current() < final(self).limits().len(),
            next_call(*old(self), *final(self), r),
    {
        proof {
            use_type_invariant(&*self);
        }
        assert(self.current_idx < self.limits@.len());
        let limit: u64 = self.limits[self.current_idx];
        if self.current_idx == self.limits.len() - 1 {
            if self.ramp_completion_action == RampCompletionAction::Loop
                || self.ramp_completion_action == RampCompletionAction::Mirror {
                self.current_idx = 0;
            }
        } else {
            self.current_idx = self.current_idx + 1;
        }
        proof {
            use_type_invariant(&*self);
        }
        limit
    }
}

/// One call of `next_ratelimit` from `before` to `after`, returning `rate`:
/// the rate at the current position, the schedule kept, the position moved
/// on.
pub open spec fn next_call(before: Ratelimit, after: Ratelimit, rate: u64) -> bool {
    &&& rate == before.limits()[before.current() as int]
    &&& after.limits() == before.limits()
    &&& after.action() == before.action()
    &&& after.current() == next_index(before.current(), before.limits().len(), before.action())
}

/// The rates `k` calls of `next_ratelimit` return on a fresh schedule of
/// `n` rates: the `(i+1)`-th call returns the rate at `i % n` when the
/// schedule loops or mirrors, and at `min(i, n - 1)` when it stays stable
/// on its final rate.
pub proof fn lemma_rates_of_calls(states: Seq<Ratelimit>, rates: Seq<u64>)
    requires
        states.len() == rates.len() + 1,
        states[0].current() == 0,
        states[0].limits().len() > 0,
        forall|i: int| 0 <= i < rates.len() ==> next_call(#[trigger] states[i], states[i + 1], rates[i]),
    ensures
        forall|i: int|
            0 <= i < rates.len() ==> #[trigger] rates[i] == (if states[0].action() == RampCompletionAction::Stable {
                states[0].limits()[if i < states[0].limits().len() { i } else { states[0].limits().len() - 1 }]
            } else {
                states[0].limits()[i % (states[0].limits().len() as int)]
            }),
{
    let n = states[0].limits().len();
    let act = states[0].action();
    assert forall|i: int| 0 <= i < states.len() implies {
        &&& (#[trigger] states[i]).limits() == states[0].limits()
        &&& states[i].action() == act
        &&& states[i].current() == index_after(0, n, act, i as nat)
    } by {
        lemma_states_follow(states, rates, i);
    }
    assert forall|i: int| 0 <= i < rates.len() implies #[trigger] rates[i] == (if act == RampCompletionAction::Stable {
        states[0].limits()[if i < n { i } else { n - 1 }]
    } else {
        states[0].limits()[i % (n as int)]
    }) by {
        assert(next_call(states[i], states[i + 1], rates[i]));
        let _ = states[i];
        lemma_index_after_calls(n, act, i as nat);
    }
}

/// Along calls of `next_ratelimit`, the schedule is kept and the position
/// after `i` calls is `index_after(0, n, action, i)`.
proof fn lemma_states_follow(states: Seq<Ratelimit>, rates: Seq<u64>, i: int)
    requires
        states.len() == rates.len() + 1,
        states[0].current() == 0,
        forall|j: int| 0 <= j < rates.len() ==> next_call(#[trigger] states[j], states[j + 1], rates[j]),
        0 <= i < states.len(),
    ensures
        states[i].limits() == states[0].limits(),
        states[i].action() == states[0].action(),
        states[i].current() == index_after(0, states[0].limits().len(), states[0].action(), i as nat),
    decreases i,
{
    if i > 0 {
        lemma_states_follow(states, rates, i - 1);
        assert(next_call(states[i - 1], states[i], rates[i - 1]));
    }
}

/// After `k` calls from the start of a schedule of `len` rates, the
/// position is `k % len` when the schedule loops or mirrors, and
/// `min(k, len - 1)` when it stays stable at its final rate.
pub proof fn lemma_index_after_calls(len: nat, action: RampCompletionAction, k: nat)
    requires
        len > 0,
    ensures
        action != RampCompletionAction::Stable ==> index_after(0, len, action, k) == k % len,
        action == RampCompletionAction::Stable ==> index_after(0, len, action, k) == (if k
            < len {
            k
        } else {
            (len - 1) as nat
        }),
    decreases k,
{
    if k > 0 {
        lemma_index_after_calls(len, action, (k - 1) as nat);
        let p = index_after(0, len, action, (k - 1) as nat);
        if action != RampCompletionAction::Stable {
            let m = len as int;
            let q = (k - 1) as int / m;
            let r = (k - 1) as int % m;
            vstd::arithmetic::div_mod::lemma_fundamental_div_mod((k - 1) as int, m);
            vstd::arithmetic::div_mod::lemma_mod_pos_bound((k - 1) as int, m);
            assert(p == r);
            if r + 1 == m {
                assert(k == m * (q + 1) + 0) by (nonlinear_arith)
                    requires
                        (k - 1) as int == m * q + r,
                        r + 1 == m,
                ;
                vstd::arithmetic::div_mod::lemma_fundamental_div_mod_converse(k as int, m, q + 1, 0);
            } else {
                vstd::arithmetic::div_mod::lemma_fundamental_div_mod_converse(k as int, m, q, r + 1);
            }
        }
    }
}

/// A mirrored schedule reads the same forwards and backwards.
pub proof fn lemma_mirror_is_palindrome(first: Seq<u64>, i: int)
    requires
        0 <= i < 2 * first.len(),
    ensures
        (first + first.reverse())[i] == (first + first.reverse())[2 * first.len() - 1 - i],
{
}

/// A linear ramp starts at `start`, rises by `step` each time, and never
/// exceeds `end`.
pub proof fn lemma_linear_ramp_increasing(s: Seq<u64>, start: u64, end: u64, step: u64, i: int, j: int)
    requires
        is_linear_ramp(s, start, end, step),
        step > 0,
        0 <= i < j < s.len(),
    ensures
        s[0] == start,
        s[i] < s[j],
        s[j] <= end,
{
    assert(s[0] == start + 0 * step);
    assert(s[i] == start + i * step);
    assert(s[j] == start + j * step);
    assert(i * step < j * step) by (nonlinear_arith)
        requires
            i < j,
            step > 0,
    ;
    assert(j * step <= (s.len() - 1) * step) by (nonlinear_arith)
        requires
            j <= s.len() - 1,
            step > 0,
    ;
}

} // verus!

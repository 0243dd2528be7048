//! The bounded polling wait, as a state machine.
//!
//! A reader observes the cell, and after each observation `next_action` says
//! what to do: take the value, sleep and observe again, or give up. `simulate`
//! runs the machine against a logical clock on which the value is published a
//! given time after the read began.

use vstd::prelude::*;
use crate::policy::{slept_ms, WaitPolicy};

verus! {

/// What a reader does after one observation of the cell.
#[derive(Clone, Copy, Debug, PartialEq, Eq, Structural)]
pub enum Action {
    /// The cell is occupied: return the value now, without sleeping.
    Deliver,
    /// The cell is empty and attempts remain: sleep, then observe again.
    Sleep { interval_ms: u64 },
    /// The cell is empty and no attempt remains: fail.
    GiveUp,
}

/// How a whole read went: whether it returned the value, and how often it
/// slept first.
#[derive(Clone, Copy, Debug, PartialEq, Eq, Structural)]
pub struct WaitOutcome {
    pub delivered: bool,
    pub sleeps: usize,
}

/// The action after an observation, given how many attempts came before it.
pub open spec fn decide(policy: WaitPolicy, attempts_made: usize, occupied: bool) -> Action {
    if attempts_made >= policy.max_attempts {
        Action::GiveUp
    } else if occupied {
        Action::Deliver
    } else if attempts_made + 1 < policy.max_attempts {
        Action::Sleep { interval_ms: policy.interval_ms }
    } else {
        Action::GiveUp
    }
}

/// Decides what a reader does after an observation that followed
/// `attempts_made` earlier attempts and found the cell occupied or not.
pub fn next_action(policy: &WaitPolicy, attempts_made: usize, occupied: bool) -> (a: Action)
    ensures
        a == decide(*policy, attempts_made, occupied),
{
    if attempts_made >= policy.max_attempts {
        Action::GiveUp
    } else if occupied {
        Action::Deliver
    } else if attempts_made < policy.max_attempts - 1 {
        Action::Sleep { interval_ms: policy.interval_ms }
    } else {
        Action::GiveUp
    }
}

/// Whether an observation made after `attempts_made` sleeps finds the cell
/// occupied, when the value is published `delay` milliseconds after the read
/// began (`None`: never).
pub open spec fn occupied_at(policy: WaitPolicy, delay: Option<u64>, attempts_made: usize) -> bool {
    match delay {
        Some(d) => d <= attempts_made * policy.interval_ms,
        None => false,
    }
}

/// The outcome of a read that has already made `attempts_made` attempts, all
/// of which found the cell empty.
pub open spec fn run_from(policy: WaitPolicy, delay: Option<u64>, attempts_made: usize) -> WaitOutcome
    decreases policy.max_attempts - attempts_made,
{
    match decide(policy, attempts_made, occupied_at(policy, delay, attempts_made)) {
        Action::Deliver => WaitOutcome { delivered: true, sleeps: attempts_made },
        Action::Sleep { .. } => run_from(policy, delay, (attempts_made + 1) as usize),
        Action::GiveUp => WaitOutcome { delivered: false, sleeps: attempts_made },
    }
}

/// The outcome of a read from its first attempt.
pub open spec fn run(policy: WaitPolicy, delay: Option<u64>) -> WaitOutcome {
    run_from(policy, delay, 0)
}

/// The least number of whole intervals that cover `delay`.
pub open spec fn intervals_to_cover(delay: u64, interval_ms: u64) -> int
    recommends
        interval_ms > 0,
{
    (delay + interval_ms - 1) / (interval_ms as int)
}

fn observes_occupied(policy: &WaitPolicy, delay: Option<u64>, attempts_made: usize) -> (r: bool)
    ensures
        r == occupied_at(*policy, delay, attempts_made),
{
    match delay {
        Some(d) => {
            assert(policy.interval_ms * attempts_made == attempts_made * policy.interval_ms)
                by (nonlinear_arith);
            (d as u128) <= slept_ms(policy.interval_ms, attempts_made)
        },
        None => false,
    }
}

/// Runs a whole read against a logical clock: the value is published
/// `delay` milliseconds after the read began (`None`: never), and the
/// attempt that follows `k` sleeps observes the cell `k` intervals after the
/// read began.
#[verifier::loop_isolation(false)]
pub fn simulate(policy: &WaitPolicy, delay: Option<u64>) -> (r: WaitOutcome)
    ensures
        r == run(*policy, delay),
        policy.wf() ==> (r.delivered <==> delay is Some && delay.unwrap()
            <= policy.worst_case_wait()),
        policy.wf() && r.delivered ==> r.sleeps == intervals_to_cover(
            delay.unwrap(),
            policy.interval_ms,
        ),
        policy.wf() && !r.delivered ==> r.sleeps == policy.max_attempts - 1,
{
    proof {
        if policy.wf() {
            lemma_run_in_closed_form(*policy, delay);
        }
    }
    let mut attempts_made: usize = 0;
    loop
        invariant
            run_from(*policy, delay, attempts_made) == run(*policy, delay),
        decreases policy.max_attempts - attempts_made,
    {
        let occupied = observes_occupied(policy, delay, attempts_made);
        match next_action(policy, attempts_made, occupied) {
            Action::Deliver => {
                return WaitOutcome { delivered: true, sleeps: attempts_made };
            },
            Action::Sleep { .. } => {
                attempts_made = attempts_made + 1;
            },
            Action::GiveUp => {
                return WaitOutcome { delivered: false, sleeps: attempts_made };
            },
        }
    }
}

/// What `run_from` returns, attempt by attempt: the read sleeps until the
/// first observation that finds the cell occupied, and gives up after the
/// last attempt if none does.
pub proof fn lemma_run_from_stops_at_first_occupied(
    policy: WaitPolicy,
    delay: Option<u64>,
    attempts_made: usize,
)
    requires
        attempts_made < policy.max_attempts,
    ensures
        attempts_made <= run_from(policy, delay, attempts_made).sleeps < policy.max_attempts,
        run_from(policy, delay, attempts_made).delivered == occupied_at(
            policy,
            delay,
            run_from(policy, delay, attempts_made).sleeps,
        ),
        !run_from(policy, delay, attempts_made).delivered ==> run_from(
            policy,
            delay,
            attempts_made,
        ).sleeps == policy.max_attempts - 1,
        forall|j: usize|
            attempts_made <= j < run_from(policy, delay, attempts_made).sleeps
                ==> !#[trigger] occupied_at(policy, delay, j),
    decreases policy.max_attempts - attempts_made,
{
    if !occupied_at(policy, delay, attempts_made) && attempts_made + 1 < policy.max_attempts {
        lemma_run_from_stops_at_first_occupied(policy, delay, (attempts_made + 1) as usize);
    }
}

/// A read of a cell that is never published makes every attempt, sleeps
/// after each but the last, and then fails: it waits for the policy's worst
/// case and no longer.
pub proof fn lemma_timeout_is_deterministic(policy: WaitPolicy)
    requires
        policy.wf(),
    ensures
        run(policy, None) == (WaitOutcome {
            delivered: false,
            sleeps: (policy.max_attempts - 1) as usize,
        }),
        run(policy, None).sleeps * policy.interval_ms == policy.worst_case_wait(),
{
    lemma_run_from_stops_at_first_occupied(policy, None, 0);
    assert((policy.max_attempts - 1) * policy.interval_ms == policy.interval_ms * (
    policy.max_attempts - 1)) by (nonlinear_arith);
}

/// A read of a cell that was published before the read began returns on its
/// first attempt, without sleeping.
pub proof fn lemma_published_before_read(policy: WaitPolicy)
    requires
        policy.wf(),
    ensures
        run(policy, Some(0u64)) == (WaitOutcome { delivered: true, sleeps: 0 }),
{
    assert(0usize * policy.interval_ms == 0) by (nonlinear_arith);
    assert(occupied_at(policy, Some(0u64), 0));
}

/// A read whose cell is published `delay` milliseconds after it began, and
/// within the policy's worst case, returns the value at the first attempt at
/// or after the publication: after the least number of whole intervals that
/// cover `delay`, so less than one interval after the publication.
pub proof fn lemma_wait_latency_is_bounded(policy: WaitPolicy, delay: u64)
    requires
        policy.wf(),
        delay <= policy.worst_case_wait(),
    ensures
        run(policy, Some(delay)).delivered,
        run(policy, Some(delay)).sleeps == intervals_to_cover(delay, policy.interval_ms),
        delay <= run(policy, Some(delay)).sleeps * policy.interval_ms < delay + policy.interval_ms,
{
    let r = run(policy, Some(delay));
    let last = (policy.max_attempts - 1) as usize;
    let step = policy.interval_ms as int;
    let d = delay as int;
    lemma_run_from_stops_at_first_occupied(policy, Some(delay), 0);
    assert(last * policy.interval_ms == policy.interval_ms * (policy.max_attempts - 1))
        by (nonlinear_arith)
        requires
            last == policy.max_attempts - 1,
    ;
    assert(occupied_at(policy, Some(delay), last));
    let k = r.sleeps as int;
    assert(d <= k * step);
    if k > 0 {
        let before = (r.sleeps - 1) as usize;
        assert(!occupied_at(policy, Some(delay), before));
        assert((k - 1) * step < d);
    }
    lemma_least_cover(d, step, k);
}

/// A read whose cell is published later than the policy's worst case after
/// it began never sees the value: it fails as if nothing were published.
pub proof fn lemma_late_publish_times_out(policy: WaitPolicy, delay: u64)
    requires
        policy.wf(),
        delay > policy.worst_case_wait(),
    ensures
        run(policy, Some(delay)) == run(policy, None),
{
    let last = (policy.max_attempts - 1) as usize;
    lemma_run_from_stops_at_first_occupied(policy, Some(delay), 0);
    lemma_timeout_is_deterministic(policy);
    let r = run(policy, Some(delay));
    assert(r.sleeps * policy.interval_ms <= policy.interval_ms * (policy.max_attempts - 1))
        by (nonlinear_arith)
        requires
            0 <= r.sleeps <= policy.max_attempts - 1,
            policy.interval_ms >= 0,
    ;
    assert(!occupied_at(policy, Some(delay), r.sleeps));
}

/// The outcome of a read under a well-formed policy, without reference to
/// single attempts: the value is delivered exactly if it is published within
/// the worst case, after the least number of intervals that cover the delay.
pub proof fn lemma_run_in_closed_form(policy: WaitPolicy, delay: Option<u64>)
    requires
        policy.wf(),
    ensures
        run(policy, delay).delivered <==> delay is Some && delay.unwrap()
            <= policy.worst_case_wait(),
        run(policy, delay).delivered ==> run(policy, delay).sleeps == intervals_to_cover(
            delay.unwrap(),
            policy.interval_ms,
        ),
        !run(policy, delay).delivered ==> run(policy, delay).sleeps == policy.max_attempts - 1,
{
    lemma_timeout_is_deterministic(policy);
    match delay {
        Some(d) => {
            if d <= policy.worst_case_wait() {
                lemma_wait_latency_is_bounded(policy, d);
            } else {
                lemma_late_publish_times_out(policy, d);
            }
        },
        None => {},
    }
}

proof fn lemma_least_cover(d: int, step: int, k: int)
    requires
        step > 0,
        0 <= d <= k * step,
        k > 0 ==> (k - 1) * step < d,
        k >= 0,
    ensures
        k == (d + step - 1) / step,
        k * step < d + step,
{
    assert(k * step < d + step) by (nonlinear_arith)
        requires
            step > 0,
            0 <= d,
            k >= 0,
            k > 0 ==> (k - 1) * step < d,
    ;
    assert((k + 1) * step == k * step + step) by (nonlinear_arith);
    assert((k - 1) * step == k * step - step) by (nonlinear_arith);
    assert(k == (d + step - 1) / step) by (nonlinear_arith)
        requires
            step > 0,
            k * step <= d + step - 1,
            d + step - 1 < (k + 1) * step,
    ;
}

} // verus!

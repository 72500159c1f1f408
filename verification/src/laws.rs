//! What every run of the retry loop does, whatever the operation answers.

use vstd::prelude::*;

use crate::error::RetryError;
use crate::policy::{decide_spec, failure_step, run, transition, Decision, LoopState, Outcome, Step};

verus! {

/// A run takes, at attempt `attempt + i`, exactly the decision that
/// [`decide_spec`] gives for the `i`-th outcome; every decision but the last
/// is a back-off; the run stops at the first decision that is not a back-off;
/// and it never makes more than `max_retries - attempt + 1` attempts, so that
/// a script of that many outcomes always ends it.
pub proof fn lemma_run_follows_decisions(s: LoopState, outcomes: Seq<Outcome>)
    requires
        s.attempt <= s.max_retries,
    ensures
        run(s, outcomes).len() <= outcomes.len(),
        run(s, outcomes).len() <= s.max_retries - s.attempt + 1,
        forall|i: int|
            0 <= i < run(s, outcomes).len() ==> #[trigger] run(s, outcomes)[i] == decide_spec(
                s.max_retries,
                (s.attempt + i) as u32,
                outcomes[i],
            ),
        forall|i: int| 0 <= i < run(s, outcomes).len() - 1 ==> #[trigger] run(s, outcomes)[i] is Backoff,
        run(s, outcomes).len() < outcomes.len() ==> !(run(s, outcomes).last() is Backoff),
        outcomes.len() > s.max_retries - s.attempt ==> {
            &&& run(s, outcomes).len() > 0
            &&& !(run(s, outcomes).last() is Backoff)
        },
    decreases outcomes.len(),
{
    if outcomes.len() > 0 {
        let (next, d) = transition(s, outcomes[0]);
        let rest = outcomes.drop_first();
        if d is Backoff {
            lemma_run_follows_decisions(next, rest);
            let r = run(s, outcomes);
            let rr = run(next, rest);
            assert(r == seq![d] + rr);
            assert forall|i: int| 0 <= i < r.len() implies #[trigger] r[i] == decide_spec(
                s.max_retries,
                (s.attempt + i) as u32,
                outcomes[i],
            ) by {
                if i > 0 {
                    assert(r[i] == rr[i - 1]);
                    assert(rest[i - 1] == outcomes[i]);
                }
            }
            assert forall|i: int| 0 <= i < r.len() - 1 implies #[trigger] r[i] is Backoff by {
                if i > 0 {
                    assert(r[i] == rr[i - 1]);
                }
            }
            if rr.len() > 0 {
                assert(r.last() == rr.last());
            }
        }
    }
}


/// The state of a loop that has not made an attempt yet.
pub open spec fn fresh(max_retries: u32) -> LoopState {
    LoopState { max_retries, attempt: 0 }
}

/// Every back-off of a run from the start is the `i`-th decision, sleeps by
/// the delay of attempt `i`, and comes before the budget is spent
/// (`i < max_retries`): delays are consulted in order 0, 1, 2, ... and a run
/// sleeps at most `max_retries` times.
pub proof fn lemma_backoffs_in_order(max_retries: u32, outcomes: Seq<Outcome>)
    ensures
        forall|i: int|
            0 <= i < run(fresh(max_retries), outcomes).len() && (#[trigger] run(
                fresh(max_retries),
                outcomes,
            )[i]) is Backoff ==> {
                &&& run(fresh(max_retries), outcomes)[i] == Decision::Backoff { attempt: i as u32 }
                &&& i < max_retries
            },
{
    lemma_run_follows_decisions(fresh(max_retries), outcomes);
}

/// With no retries in the budget a run never sleeps: the first attempt
/// decides.
pub proof fn lemma_no_retries_never_sleeps(outcomes: Seq<Outcome>)
    ensures
        run(fresh(0), outcomes).len() <= 1,
        forall|i: int|
            0 <= i < run(fresh(0), outcomes).len() ==> !((#[trigger] run(fresh(0), outcomes)[i]) is Backoff),
{
    lemma_run_follows_decisions(fresh(0), outcomes);
}

/// [`lemma_run_follows_decisions`] for a run from the start: the `i`-th
/// decision is the one for attempt `i`.
proof fn lemma_fresh_run_follows_decisions(max_retries: u32, outcomes: Seq<Outcome>)
    ensures
        run(fresh(max_retries), outcomes).len() <= outcomes.len(),
        run(fresh(max_retries), outcomes).len() <= max_retries + 1,
        forall|i: int|
            0 <= i < run(fresh(max_retries), outcomes).len() ==> #[trigger] run(
                fresh(max_retries),
                outcomes,
            )[i] == decide_spec(max_retries, i as u32, outcomes[i]),
        forall|i: int|
            0 <= i < run(fresh(max_retries), outcomes).len() - 1 ==> #[trigger] run(
                fresh(max_retries),
                outcomes,
            )[i] is Backoff,
        run(fresh(max_retries), outcomes).len() < outcomes.len() ==> !(run(
            fresh(max_retries),
            outcomes,
        ).last() is Backoff),
        outcomes.len() > max_retries ==> {
            &&& run(fresh(max_retries), outcomes).len() > 0
            &&& !(run(fresh(max_retries), outcomes).last() is Backoff)
        },
{
    let r = run(fresh(max_retries), outcomes);
    lemma_run_follows_decisions(fresh(max_retries), outcomes);
    assert forall|i: int| 0 <= i < r.len() implies #[trigger] r[i] == decide_spec(
        max_retries,
        i as u32,
        outcomes[i],
    ) by {
        assert(r[i] == decide_spec(max_retries, (0 + i) as u32, outcomes[i]));
    }
}

/// An operation that keeps failing with retryable errors is tried exactly
/// `max_retries + 1` times: the loop sleeps after attempts
/// `0 .. max_retries - 1`, and then gives up reporting `max_retries`
/// retries.
pub proof fn lemma_exhaustion(max_retries: u32, outcomes: Seq<Outcome>)
    requires
        outcomes.len() > max_retries,
        forall|i: int| 0 <= i < outcomes.len() ==> #[trigger] outcomes[i] == (Outcome::Failed { retryable: true }),
    ensures
        run(fresh(max_retries), outcomes).len() == max_retries + 1,
        forall|i: int|
            0 <= i < max_retries ==> #[trigger] run(fresh(max_retries), outcomes)[i] == (Decision::Backoff {
                attempt: i as u32,
            }),
        run(fresh(max_retries), outcomes)[max_retries as int] == (Decision::GiveUp { retries: max_retries }),
{
    let r = run(fresh(max_retries), outcomes);
    lemma_fresh_run_follows_decisions(max_retries, outcomes);
    assert(r.len() == max_retries + 1) by {
        if r.len() < max_retries + 1 {
            let k = r.len() - 1;
            assert(r[k] == decide_spec(max_retries, k as u32, outcomes[k]));
        }
    }
}

/// A run ends at the first attempt that succeeds or fails for good, as long
/// as it comes within the budget: if attempts `0 .. k - 1` fail with
/// retryable errors and attempt `k <= max_retries` succeeds, the run sleeps
/// `k` times and returns the value; if attempt `k` fails with an error that
/// is not retryable, the run sleeps `k` times and gives up reporting `k`
/// retries.
pub proof fn lemma_first_final_outcome_ends_run(max_retries: u32, outcomes: Seq<Outcome>, k: int)
    requires
        0 <= k <= max_retries,
        k < outcomes.len(),
        forall|j: int| 0 <= j < k ==> #[trigger] outcomes[j] == (Outcome::Failed { retryable: true }),
        outcomes[k] != (Outcome::Failed { retryable: true }),
    ensures
        run(fresh(max_retries), outcomes).len() == k + 1,
        forall|j: int|
            0 <= j < k ==> #[trigger] run(fresh(max_retries), outcomes)[j] == (Decision::Backoff {
                attempt: j as u32,
            }),
        outcomes[k] == Outcome::Succeeded ==> run(fresh(max_retries), outcomes)[k] == Decision::Return,
        outcomes[k] == (Outcome::Failed { retryable: false }) ==> run(fresh(max_retries), outcomes)[k]
            == (Decision::GiveUp { retries: k as u32 }),
{
    let r = run(fresh(max_retries), outcomes);
    lemma_fresh_run_follows_decisions(max_retries, outcomes);
    assert(r.len() > k) by {
        if r.len() <= k {
            if r.len() == 0 {
                assert(outcomes.len() > 0);
            } else {
                let m = r.len() - 1;
                assert(r[m] == decide_spec(max_retries, m as u32, outcomes[m]));
                assert(outcomes[m] == (Outcome::Failed { retryable: true }));
            }
        }
    }
    assert(!(r[k] is Backoff));
}


/// What a failed attempt tells the caller carries the decision through
/// unchanged: a back-off for attempt `a` asks to sleep the delay of exactly
/// attempt `a`, and giving up after `r` retries ends the run with the error
/// itself and exactly `r` as the retry count.
pub proof fn lemma_failure_step_carries_decision<T, E>(a: u32, r: u32, e: E)
    ensures
        failure_step::<T, E>(Decision::Backoff { attempt: a }, e) == (Step::<T, E>::Sleep { attempt: a }),
        failure_step::<T, E>(Decision::GiveUp { retries: r }, e) == Step::<T, E>::Done(
            Err(RetryError::FinalError(e, r)),
        ),
{
}

/// Against an operation that always fails with a retryable error `e`, a run
/// with a budget of `max_retries` asks to sleep the delays of attempts
/// `0, 1, ..., max_retries - 1`, in that order, and then ends with `e` and a
/// retry count of exactly `max_retries`.
pub proof fn lemma_exhausted_run_steps<T, E>(max_retries: u32, outcomes: Seq<Outcome>, e: E)
    requires
        outcomes.len() > max_retries,
        forall|i: int| 0 <= i < outcomes.len() ==> #[trigger] outcomes[i] == (Outcome::Failed { retryable: true }),
    ensures
        forall|i: int|
            0 <= i < max_retries ==> failure_step::<T, E>(
                #[trigger] run(fresh(max_retries), outcomes)[i],
                e,
            ) == (Step::<T, E>::Sleep { attempt: i as u32 }),
        failure_step::<T, E>(run(fresh(max_retries), outcomes)[max_retries as int], e) == Step::<
            T,
            E,
        >::Done(Err(RetryError::FinalError(e, max_retries))),
{
    lemma_exhaustion(max_retries, outcomes);
}

/// A run that meets an error that is not retryable at attempt
/// `k <= max_retries` (after `k` retryable failures) ends with that error and
/// a retry count of exactly `k`, after sleeping the delays of attempts
/// `0, ..., k - 1`.
pub proof fn lemma_non_retryable_run_steps<T, E>(max_retries: u32, outcomes: Seq<Outcome>, k: int, e: E)
    requires
        0 <= k <= max_retries,
        k < outcomes.len(),
        forall|j: int| 0 <= j < k ==> #[trigger] outcomes[j] == (Outcome::Failed { retryable: true }),
        outcomes[k] == (Outcome::Failed { retryable: false }),
    ensures
        forall|j: int|
            0 <= j < k ==> failure_step::<T, E>(
                #[trigger] run(fresh(max_retries), outcomes)[j],
                e,
            ) == (Step::<T, E>::Sleep { attempt: j as u32 }),
        failure_step::<T, E>(run(fresh(max_retries), outcomes)[k], e) == Step::<T, E>::Done(
            Err(RetryError::FinalError(e, k as u32)),
        ),
{
    lemma_first_final_outcome_ends_run(max_retries, outcomes, k);
}

} // verus!

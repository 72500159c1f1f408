//! The retry loop as a state machine: the state is the index of the current
//! attempt, the event is how that attempt went, the action is what to do
//! next (return, give up, or sleep and try again).

use vstd::prelude::*;

use crate::classify::IsRetryable;
use crate::error::RetryError;

verus! {

/// How one attempt of the operation went.
#[derive(Clone, Copy, Debug, PartialEq, Eq, Structural)]
pub enum Outcome {
    /// The operation returned a value.
    Succeeded,
    /// The operation failed; `retryable` is what the error said of itself.
    Failed { retryable: bool },
}

/// What the loop does after an attempt.
#[derive(Clone, Copy, Debug, PartialEq, Eq, Structural)]
pub enum Decision {
    /// Hand the value to the caller.
    Return,
    /// Stop and report the error, with the number of retries made before it.
    GiveUp { retries: u32 },
    /// Sleep for the backoff delay of attempt `attempt`, then try again.
    Backoff { attempt: u32 },
}

/// The decision after attempt `attempt` (0-indexed) under a budget of
/// `max_retries` retries: a success returns; a failure that is not
/// retryable, or that used up the budget, gives up and reports `attempt`
/// as the number of retries; any other failure backs off by the delay of
/// `attempt`.
pub open spec fn decide_spec(max_retries: u32, attempt: u32, outcome: Outcome) -> Decision {
    match outcome {
        Outcome::Succeeded => Decision::Return,
        Outcome::Failed { retryable } => {
            if !retryable || attempt >= max_retries {
                Decision::GiveUp { retries: attempt }
            } else {
                Decision::Backoff { attempt }
            }
        },
    }
}

/// Computes [`decide_spec`].
pub fn decide(max_retries: u32, attempt: u32, outcome: Outcome) -> (d: Decision)
    ensures
        d == decide_spec(max_retries, attempt, outcome),
{
    match outcome {
        Outcome::Succeeded => Decision::Return,
        Outcome::Failed { retryable } => {
            if !retryable || attempt >= max_retries {
                Decision::GiveUp { retries: attempt }
            } else {
                Decision::Backoff { attempt }
            }
        },
    }
}


/// The state of a retry loop: its budget and the index of the attempt that
/// is under way.
pub struct LoopState {
    pub max_retries: u32,
    pub attempt: u32,
}

/// One step of the loop: the decision after the current attempt, and the
/// state it leaves (a back-off moves on to the next attempt; every other
/// decision leaves the state as it was).
pub open spec fn transition(s: LoopState, outcome: Outcome) -> (LoopState, Decision) {
    let d = decide_spec(s.max_retries, s.attempt, outcome);
    if d is Backoff {
        (LoopState { max_retries: s.max_retries, attempt: (s.attempt + 1) as u32 }, d)
    } else {
        (s, d)
    }
}

/// What a run does with a script of outcomes: the decisions it takes, one per
/// attempt, up to and including the first one that ends it (or until the
/// script runs out).
pub open spec fn run(s: LoopState, outcomes: Seq<Outcome>) -> Seq<Decision>
    decreases outcomes.len(),
{
    if outcomes.len() == 0 {
        Seq::empty()
    } else {
        let (next, d) = transition(s, outcomes[0]);
        if d is Backoff {
            seq![d] + run(next, outcomes.drop_first())
        } else {
            seq![d]
        }
    }
}

/// What a step over an operation's result tells the caller.
#[derive(Debug)]
pub enum Step<T, E> {
    /// The run is over: the value, or the error it ended with.
    Done(Result<T, RetryError<E>>),
    /// Sleep for the backoff delay of attempt `attempt`, then call the
    /// operation again.
    Sleep { attempt: u32 },
}

/// The step a failed attempt with error `e` leads to, given the decision (a
/// failure is never answered with `Return`, so that case is a placeholder).
pub open spec fn failure_step<T, E>(d: Decision, e: E) -> Step<T, E> {
    match d {
        Decision::Backoff { attempt } => Step::Sleep { attempt },
        Decision::GiveUp { retries } => Step::Done(Err(RetryError::FinalError(e, retries))),
        Decision::Return => Step::Sleep { attempt: 0 },
    }
}

/// A retry loop in progress: at most `max_retries` retries after the first
/// attempt, so at most `max_retries + 1` attempts in all.
pub struct RetryLoop {
    max_retries: u32,
    attempt: u32,
}

impl View for RetryLoop {
    type V = LoopState;

    closed spec fn view(&self) -> LoopState {
        LoopState { max_retries: self.max_retries, attempt: self.attempt }
    }
}

impl RetryLoop {
    #[verifier::type_invariant]
    spec fn within_budget(self) -> bool {
        self.attempt <= self.max_retries
    }

    /// A loop that is about to make its first attempt.
    pub fn new(max_retries: u32) -> (l: Self)
        ensures
            l@ == (LoopState { max_retries, attempt: 0 }),
    {
        RetryLoop { max_retries, attempt: 0 }
    }

    /// The retry budget.
    pub fn max_retries(&self) -> (r: u32)
        ensures
            r == self@.max_retries,
    {
        self.max_retries
    }

    /// The index of the attempt under way (0 for the first attempt).
    pub fn attempt(&self) -> (r: u32)
        ensures
            r == self@.attempt,
            r <= self@.max_retries,
    {
        proof {
            use_type_invariant(self);
        }
        self.attempt
    }

    /// Records how the current attempt went and says what to do next.
    pub fn record(&mut self, outcome: Outcome) -> (d: Decision)
        ensures
            (final(self)@, d) == transition(old(self)@, outcome),
            final(self)@.attempt <= final(self)@.max_retries,
    {
        proof {
            use_type_invariant(&*self);
        }
        let d = decide(self.max_retries, self.attempt, outcome);
        match d {
            Decision::Backoff { .. } => {
                self.attempt = self.attempt + 1;
            },
            _ => {},
        }
        proof {
            use_type_invariant(&*self);
        }
        d
    }

    /// Feeds the result of the current attempt to the loop. A value ends the
    /// run with that value. An error is asked whether it is retryable (its own
    /// `is_retryable` gives the answer), and the loop decides as
    /// [`decide_spec`] says for that answer: it either
    /// ends the run with the error and the number of retries made, or asks
    /// for the backoff sleep of the current attempt.
    pub fn step<T, E: IsRetryable>(&mut self, result: Result<T, E>) -> (s: Step<T, E>)
        ensures
            final(self)@.attempt <= final(self)@.max_retries,
            match result {
                Ok(v) => s == Step::<T, E>::Done(Ok(v)) && final(self)@ == old(self)@,
                Err(e) => exists|retryable: bool|
                    {
                        let (next, d) = #[trigger] transition(
                            old(self)@,
                            Outcome::Failed { retryable },
                        );
                        &&& call_ensures(E::is_retryable, (&e,), retryable)
                        &&& final(self)@ == next
                        &&& !(d is Return)
                        &&& s == failure_step::<T, E>(d, e)
                        &&& if retryable && old(self)@.attempt < old(self)@.max_retries {
                            &&& s == Step::<T, E>::Sleep { attempt: old(self)@.attempt }
                            &&& final(self)@ == (LoopState {
                                max_retries: old(self)@.max_retries,
                                attempt: (old(self)@.attempt + 1) as u32,
                            })
                        } else {
                            &&& s == Step::<T, E>::Done(
                                Err(RetryError::FinalError(e, old(self)@.attempt)),
                            )
                            &&& final(self)@ == old(self)@
                        }
                    },
            },
    {
        match result {
            Ok(v) => {
                let _ = self.record(Outcome::Succeeded);
                Step::Done(Ok(v))
            },
            Err(e) => {
                let retryable = e.is_retryable();
                let d = self.record(Outcome::Failed { retryable });
                match d {
                    Decision::Backoff { attempt } => Step::Sleep { attempt },
                    Decision::GiveUp { retries } => Step::Done(Err(RetryError::FinalError(e, retries))),
                    Decision::Return => Step::Sleep { attempt: 0 },
                }
            },
        }
    }
}

} // verus!

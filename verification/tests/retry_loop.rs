// The retry loop driven synchronously: each attempt's result is fed to the
// loop, and the sleeps it asks for are recorded instead of slept.

use loop_retry::{Decision, IsRetryable, Outcome, RetryError, RetryLoop, Step};

#[derive(Debug)]
struct TestError(bool);

impl IsRetryable for TestError {
    fn is_retryable(&self) -> bool {
        self.0
    }
}

/// Runs a loop with budget `max_retries` against `op`, which is given the
/// attempt count so far. Returns the result, the number of attempts made and
/// the attempt indices whose backoff delay was slept.
fn drive<T>(
    max_retries: u32,
    mut op: impl FnMut(u32) -> Result<T, TestError>,
) -> (Result<T, RetryError<TestError>>, u32, Vec<u32>) {
    let mut run = RetryLoop::new(max_retries);
    let mut attempts = 0u32;
    let mut sleeps = Vec::new();
    loop {
        let result = op(attempts);
        attempts += 1;
        match run.step(result) {
            Step::Done(r) => return (r, attempts, sleeps),
            Step::Sleep { attempt } => sleeps.push(attempt),
        }
    }
}

#[test]
fn succeeds_on_first_try() {
    // RetryConfig::no_retries() has a budget of 0 retries.
    let (result, _, _) = drive(0, |_| Ok::<_, TestError>(42));
    assert_eq!(result.unwrap(), 42);
}

#[test]
fn retries_then_succeeds() {
    let (result, attempts, _) = drive(3, |count| {
        if count < 2 {
            Err(TestError(true))
        } else {
            Ok(42)
        }
    });
    assert_eq!(result.unwrap(), 42);
    assert_eq!(attempts, 3);
}

#[test]
fn non_retryable_error_returns_immediately() {
    // RetryConfig::aggressive() has a budget of 10 retries.
    let (result, _, _) = drive(10, |_| Err::<i32, _>(TestError(false)));
    assert!(result.is_err());
    match result.unwrap_err() {
        RetryError::FinalError(_, retries) => assert_eq!(retries, 0),
    }
}

#[test]
fn max_retries_exhausted() {
    let (result, _, _) = drive(2, |_| Err::<i32, _>(TestError(true)));
    assert!(result.is_err());
    match result.unwrap_err() {
        RetryError::FinalError(_, retries) => assert_eq!(retries, 2),
    }
}

#[test]
fn budget_controls_attempt_count() {
    assert_eq!(drive(0, |_| Err::<(), _>(TestError(true))).1, 1);
    assert_eq!(drive(10, |_| Err::<(), _>(TestError(true))).1, 11);
    assert_eq!(drive(4, |_| Err::<(), _>(TestError(true))).1, 5);
}

#[test]
fn zero_budget_never_sleeps() {
    let (result, attempts, sleeps) = drive(0, |_| Err::<(), _>(TestError(true)));
    assert!(sleeps.is_empty());
    assert_eq!(attempts, 1);
    assert_eq!(result.unwrap_err().retries(), 0);
}

#[test]
fn sleeps_use_delays_in_attempt_order() {
    let (_, attempts, sleeps) = drive(3, |_| Err::<(), _>(TestError(true)));
    assert_eq!(sleeps, vec![0, 1, 2]);
    assert_eq!(attempts, 4);
    let (_, _, sleeps) = drive(4, |_| Err::<(), _>(TestError(true)));
    assert_eq!(sleeps, vec![0, 1, 2, 3]);
}

#[test]
fn non_retryable_after_retries_reports_attempt_index() {
    let (result, attempts, sleeps) = drive(5, |count| Err::<(), _>(TestError(count < 2)));
    assert_eq!(attempts, 3);
    assert_eq!(sleeps, vec![0, 1]);
    let e = result.unwrap_err();
    assert_eq!(e.retries(), 2);
    assert!(!e.into_inner().0);
}

#[test]
fn success_on_last_attempt_in_budget() {
    let (result, attempts, sleeps) = drive(2, |count| if count == 2 { Ok(7) } else { Err(TestError(true)) });
    assert_eq!(result.unwrap(), 7);
    assert_eq!(attempts, 3);
    assert_eq!(sleeps, vec![0, 1]);
}

#[test]
fn success_after_budget_is_never_reached() {
    let (result, attempts, _) = drive(1, |count| if count == 2 { Ok(7) } else { Err(TestError(true)) });
    assert_eq!(attempts, 2);
    assert_eq!(result.unwrap_err().retries(), 1);
}

#[test]
fn decide_table() {
    assert_eq!(loop_retry::policy::decide(3, 0, Outcome::Succeeded), Decision::Return);
    assert_eq!(loop_retry::policy::decide(3, 3, Outcome::Succeeded), Decision::Return);
    assert_eq!(
        loop_retry::policy::decide(3, 1, Outcome::Failed { retryable: true }),
        Decision::Backoff { attempt: 1 }
    );
    assert_eq!(
        loop_retry::policy::decide(3, 3, Outcome::Failed { retryable: true }),
        Decision::GiveUp { retries: 3 }
    );
    assert_eq!(
        loop_retry::policy::decide(3, 1, Outcome::Failed { retryable: false }),
        Decision::GiveUp { retries: 1 }
    );
    assert_eq!(
        loop_retry::policy::decide(0, 0, Outcome::Failed { retryable: true }),
        Decision::GiveUp { retries: 0 }
    );
}

#[test]
fn record_moves_to_next_attempt_only_on_backoff() {
    let mut run = RetryLoop::new(2);
    assert_eq!(run.max_retries(), 2);
    assert_eq!(run.attempt(), 0);
    assert_eq!(run.record(Outcome::Failed { retryable: true }), Decision::Backoff { attempt: 0 });
    assert_eq!(run.attempt(), 1);
    assert_eq!(run.record(Outcome::Failed { retryable: true }), Decision::Backoff { attempt: 1 });
    assert_eq!(run.attempt(), 2);
    assert_eq!(run.record(Outcome::Failed { retryable: true }), Decision::GiveUp { retries: 2 });
    assert_eq!(run.attempt(), 2);
    assert_eq!(run.record(Outcome::Succeeded), Decision::Return);
    assert_eq!(run.attempt(), 2);
    assert_eq!(run.max_retries(), 2);
}

#[test]
fn step_with_value_keeps_state() {
    let mut run = RetryLoop::new(1);
    match run.step(Ok::<u8, TestError>(5)) {
        Step::Done(Ok(v)) => assert_eq!(v, 5),
        other => panic!("unexpected step {:?}", other),
    }
    assert_eq!(run.attempt(), 0);
}

# loop-retry

Retry with exponential backoff, with the retry loop's decisions verified by Verus.

- `src/error.rs`: `RetryError`, the error a run ends with, and its accessors.
- `src/classify.rs`: the `IsRetryable` trait and its implementation for
  `std::io::Error`.
- `src/policy.rs`: the retry loop as a state machine (`decide`, `RetryLoop`),
  with its model (`transition`, `run`).
- `src/laws.rs`: what every run does (attempt budget, order of backoff
  delays, where a run stops).
- `app/`: the async driver `with_backoff`, which sleeps with tokio, and
  `RetryConfig`, whose delays are computed in floating point with random
  jitter.

`IsRetryable` is implemented for `std::io::Error` (its kind decides) but not for `std::net::AddrParseError`: the verified library does not take
`std::net`, and `app/` may not implement the library's trait for a std type.

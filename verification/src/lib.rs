//! Retry decisions for fallible operations with exponential backoff.

use vstd::prelude::*;

pub mod classify;
pub mod error;
pub mod laws;
pub mod policy;

pub use classify::IsRetryable;
pub use error::RetryError;
pub use policy::{Decision, LoopState, Outcome, RetryLoop, Step};

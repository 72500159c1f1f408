//! The error a retry run ends with.

use vstd::prelude::*;

verus! {

/// Error type for retry operations.
#[derive(Debug)]
pub enum RetryError<E> {
    /// The error the last attempt failed with, and the index of that attempt
    /// (the number of retries that were made before it).
    FinalError(E, u32),
}

impl<E> RetryError<E> {
    /// Get the inner error.
    pub fn into_inner(self) -> (e: E)
        ensures
            e == self->FinalError_0,
    {
        match self {
            RetryError::FinalError(e, _) => e,
        }
    }

    /// Get the number of retries attempted.
    pub fn retries(&self) -> (r: u32)
        ensures
            r == self->FinalError_1,
    {
        match self {
            RetryError::FinalError(_, r) => *r,
        }
    }
}

} // verus!

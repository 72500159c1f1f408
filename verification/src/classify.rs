//! Deciding whether an error is worth another attempt.

use vstd::prelude::*;

verus! {

/// Trait for errors that can be classified as retryable.
///
/// Retryability belongs to the caller: a retry run asks the error through
/// this trait and never decides on its own.
pub trait IsRetryable {
    /// Returns true if the operation should be retried.
    fn is_retryable(&self) -> bool;
}

#[verifier::external_type_specification]
#[verifier::external_body]
pub struct ExIoError(std::io::Error);

#[verifier::external_type_specification]
pub struct ExIoErrorKind(std::io::ErrorKind);

/// The transient kinds of I/O failure: the peer or the channel may well
/// answer on a later attempt. Every other kind is permanent.
pub open spec fn spec_kind_is_transient(kind: std::io::ErrorKind) -> bool {
    match kind {
        std::io::ErrorKind::ConnectionRefused => true,
        std::io::ErrorKind::ConnectionReset => true,
        std::io::ErrorKind::ConnectionAborted => true,
        std::io::ErrorKind::TimedOut => true,
        std::io::ErrorKind::WouldBlock => true,
        std::io::ErrorKind::BrokenPipe => true,
        _ => false,
    }
}

/// What `std::io::Error::kind` returns for an error. `kind` reads the error
/// value and nothing else (for an OS error, it decodes the stored code by
/// the target's fixed table).
pub uninterp spec fn io_error_kind_of(e: std::io::Error) -> std::io::ErrorKind;

/// Calls `std::io::Error::kind`. The contract claims only that the result
/// is the kind of this error value, `io_error_kind_of(*e)`.
#[verifier::external_body]
pub(crate) fn io_error_kind(e: &std::io::Error) -> (k: std::io::ErrorKind)
    ensures
        k == io_error_kind_of(*e),
{
    e.kind()
}

/// Exactly six kinds of I/O failure are transient: a refused, reset or
/// aborted connection, a timeout, an operation that would block, and a
/// broken pipe. Every other kind (a missing file, a denied permission, an
/// existing entry, an interruption, ...) is permanent.
pub proof fn lemma_transient_kinds(k: std::io::ErrorKind)
    ensures
        spec_kind_is_transient(k) <==> {
            ||| k == std::io::ErrorKind::ConnectionRefused
            ||| k == std::io::ErrorKind::ConnectionReset
            ||| k == std::io::ErrorKind::ConnectionAborted
            ||| k == std::io::ErrorKind::TimedOut
            ||| k == std::io::ErrorKind::WouldBlock
            ||| k == std::io::ErrorKind::BrokenPipe
        },
{
}

impl IsRetryable for std::io::Error {
    /// Connection-level and timing failures are retryable; everything else
    /// is permanent.
    fn is_retryable(&self) -> (r: bool)
        ensures
            r == spec_kind_is_transient(io_error_kind_of(*self)),
            r <==> {
                let k = io_error_kind_of(*self);
                ||| k == std::io::ErrorKind::ConnectionRefused
                ||| k == std::io::ErrorKind::ConnectionReset
                ||| k == std::io::ErrorKind::ConnectionAborted
                ||| k == std::io::ErrorKind::TimedOut
                ||| k == std::io::ErrorKind::WouldBlock
                ||| k == std::io::ErrorKind::BrokenPipe
            },
    {
        match io_error_kind(self) {
            std::io::ErrorKind::ConnectionRefused => true,
            std::io::ErrorKind::ConnectionReset => true,
            std::io::ErrorKind::ConnectionAborted => true,
            std::io::ErrorKind::TimedOut => true,
            std::io::ErrorKind::WouldBlock => true,
            std::io::ErrorKind::BrokenPipe => true,
            _ => false,
        }
    }
}

} // verus!

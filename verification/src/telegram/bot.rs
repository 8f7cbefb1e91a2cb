//! When a message that could not be delivered is sent again.
//!
//! A delivery is tried at most three times. A rate limit is waited out for
//! as long as the transport says; a network error is waited out for half a
//! second per failed attempt; any other error ends the delivery at once.

use vstd::prelude::*;

verus! {

/// Number of attempts per message.
pub const MAX_ATTEMPTS: u32 = 3;

/// Milliseconds of back-off per failed attempt after a network error.
pub const NETWORK_BACKOFF_MS: u64 = 500;

/// Why an attempt failed.
#[derive(Debug, Clone, Copy, PartialEq, Eq, Structural)]
pub enum SendFailure {
    /// The transport asks to wait this many seconds.
    RateLimited(u64),
    /// The network failed.
    NetworkError,
    /// The transport refuses the message for good.
    Fatal,
}

/// What follows a failed attempt.
#[derive(Debug, Clone, Copy, PartialEq, Eq, Structural)]
pub enum RetryStep {
    /// Wait this many seconds; then try again if `again`, else give up.
    WaitSeconds { seconds: u64, again: bool },
    /// Wait this many milliseconds; then try again if `again`, else give up.
    WaitMillis { millis: u64, again: bool },
    /// Give up at once and report the failure.
    Abort,
}

/// What follows the failure of attempt number `failed_before + 1`.
pub open spec fn retry_step(failed_before: u32, failure: SendFailure) -> RetryStep {
    let attempts = failed_before + 1;
    match failure {
        SendFailure::RateLimited(seconds) => RetryStep::WaitSeconds {
            seconds,
            again: attempts < MAX_ATTEMPTS,
        },
        SendFailure::NetworkError => RetryStep::WaitMillis {
            millis: (NETWORK_BACKOFF_MS * attempts) as u64,
            again: attempts < MAX_ATTEMPTS,
        },
        SendFailure::Fatal => RetryStep::Abort,
    }
}

/// Decides what follows a failed attempt; `failed_before` counts the
/// attempts that failed before this one.
pub fn dispatch_telegram_message(failed_before: u32, failure: SendFailure) -> (step: RetryStep)
    requires
        failed_before < MAX_ATTEMPTS,
    ensures
        step == retry_step(failed_before, failure),
{
    let attempts: u32 = failed_before + 1;
    match failure {
        SendFailure::RateLimited(seconds) => RetryStep::WaitSeconds {
            seconds,
            again: attempts < MAX_ATTEMPTS,
        },
        SendFailure::NetworkError => RetryStep::WaitMillis {
            millis: NETWORK_BACKOFF_MS * (attempts as u64),
            again: attempts < MAX_ATTEMPTS,
        },
        SendFailure::Fatal => RetryStep::Abort,
    }
}

/// The delivery ends after three failures: the step after the third failed
/// attempt never asks for another one.
pub proof fn lemma_third_failure_is_last(failure: SendFailure)
    ensures
        match retry_step(2, failure) {
            RetryStep::WaitSeconds { again, .. } => !again,
            RetryStep::WaitMillis { again, .. } => !again,
            RetryStep::Abort => true,
        },
{
}

} // verus!

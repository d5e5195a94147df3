//! What to do when a call to the remote source has failed.
//!
//! The source throttles its callers: a throttled call fails with a code of
//! its own and says how long to stay away. Such a call is made again after
//! that time, as often as it takes; every other failure goes to the caller
//! as it is. The caller makes the calls and does the waiting, this module
//! decides between the two.

use crate::failure::FailureKind;
use vstd::prelude::*;

verus! {

/// The code with which the source answers a throttled call.
pub const FLOOD_WAIT_CODE: i32 = 420;

/// How many seconds to stay away where the source names no time.
pub const DEFAULT_WAIT_SECONDS: u32 = 30;

/// What the policy reads of a failed call.
#[derive(Debug, Clone, Copy, PartialEq, Eq, Structural)]
pub enum CallFailure {
    /// The source refused the request, with a code and, for some codes, a
    /// number.
    Rpc { code: i32, value: Option<u32> },
    /// Any other failure: the transport, the session, an unreadable answer.
    Other,
}

/// What to do about a failed call.
#[derive(Debug, Clone, Copy, PartialEq, Eq, Structural)]
pub enum RetryDecision {
    /// Wait this long, then make the same call again.
    Wait { seconds: u64 },
    /// Hand the failure to the caller.
    Surface,
}

/// Whether the failure is the source throttling the caller.
pub open spec fn is_rate_limited(failure: CallFailure) -> bool {
    failure matches CallFailure::Rpc { code, .. } && code == FLOOD_WAIT_CODE
}

/// The seconds that a throttled call is told to stay away.
pub open spec fn wait_seconds(failure: CallFailure) -> int {
    match failure {
        CallFailure::Rpc { value: Some(seconds), .. } => seconds as int,
        _ => DEFAULT_WAIT_SECONDS as int,
    }
}

/// What the policy decides on `failure`.
pub open spec fn decided(failure: CallFailure) -> RetryDecision {
    if is_rate_limited(failure) {
        RetryDecision::Wait { seconds: wait_seconds(failure) as u64 }
    } else {
        RetryDecision::Surface
    }
}

impl CallFailure {
    /// What kind of failure this is: throttling, or a failure of the source.
    pub fn kind(&self) -> (k: FailureKind)
        ensures
            k == if is_rate_limited(*self) {
                FailureKind::RateLimited
            } else {
                FailureKind::Remote
            },
    {
        match self {
            CallFailure::Rpc { code, .. } => if *code == FLOOD_WAIT_CODE {
                FailureKind::RateLimited
            } else {
                FailureKind::Remote
            },
            CallFailure::Other => FailureKind::Remote,
        }
    }
}

/// Decides what to do about a failed call: wait and call again where the
/// source throttled it, for the time it named or the default where it named
/// none; surface every other failure.
pub fn on_failure(failure: &CallFailure) -> (d: RetryDecision)
    ensures
        d == decided(*failure),
        d is Surface <==> !is_rate_limited(*failure),
{
    match failure {
        CallFailure::Rpc { code, value } => {
            if *code == FLOOD_WAIT_CODE {
                let seconds = match value {
                    Some(s) => *s,
                    None => DEFAULT_WAIT_SECONDS,
                };
                RetryDecision::Wait { seconds: seconds as u64 }
            } else {
                RetryDecision::Surface
            }
        },
        CallFailure::Other => RetryDecision::Surface,
    }
}

} // verus!

//! What one poll of an activation means.

use vstd::prelude::*;
use crate::error::ActivationFailure;

verus! {

/// State code of an active connection that is being brought up.
pub const ACTIVE_STATE_ACTIVATING: u32 = 1;

/// State code of an active connection that is up.
pub const ACTIVE_STATE_ACTIVATED: u32 = 2;

/// State code of an active connection that is being taken down.
pub const ACTIVE_STATE_DEACTIVATING: u32 = 3;

/// State code of an active connection that is down.
pub const ACTIVE_STATE_DEACTIVATED: u32 = 4;

/// Seconds between two polls of one operation.
pub const POLL_INTERVAL_SECS: u64 = 1;

/// How many times the state of an activation is read before giving up.
pub const ACTIVATION_POLLS: u32 = 15;

/// What to make of an activation after one more poll.
#[derive(Clone, Copy, Debug, PartialEq, Eq, Structural)]
pub enum PollVerdict {
    /// The connection is up.
    Activated,
    /// The activation has failed for good.
    Failed(ActivationFailure),
    /// The activation was still under way at the last poll allowed.
    TimedOut,
    /// The activation is under way: wait, and poll again.
    Again,
}

/// The verdict after a poll that read `reading`, `polls_before` polls having
/// been made before it. A state that could not be read is `None`.
pub open spec fn poll_verdict(polls_before: nat, reading: Option<u32>) -> PollVerdict {
    match reading {
        Some(state) => if state == ACTIVE_STATE_ACTIVATED {
            PollVerdict::Activated
        } else if state == ACTIVE_STATE_DEACTIVATING || state == ACTIVE_STATE_DEACTIVATED {
            PollVerdict::Failed(ActivationFailure::Rejected)
        } else if state == ACTIVE_STATE_ACTIVATING {
            if polls_before + 1 >= ACTIVATION_POLLS {
                PollVerdict::TimedOut
            } else {
                PollVerdict::Again
            }
        } else {
            PollVerdict::Failed(ActivationFailure::Vanished)
        },
        None => PollVerdict::Failed(ActivationFailure::Vanished),
    }
}

/// Judges one poll of an activation.
pub fn activation_verdict(polls_before: u32, reading: Option<u32>) -> (verdict: PollVerdict)
    ensures
        verdict == poll_verdict(polls_before as nat, reading),
{
    match reading {
        Some(state) => {
            if state == ACTIVE_STATE_ACTIVATED {
                PollVerdict::Activated
            } else if state == ACTIVE_STATE_DEACTIVATING || state == ACTIVE_STATE_DEACTIVATED {
                PollVerdict::Failed(ActivationFailure::Rejected)
            } else if state == ACTIVE_STATE_ACTIVATING {
                if polls_before >= ACTIVATION_POLLS - 1 {
                    PollVerdict::TimedOut
                } else {
                    PollVerdict::Again
                }
            } else {
                PollVerdict::Failed(ActivationFailure::Vanished)
            }
        },
        None => PollVerdict::Failed(ActivationFailure::Vanished),
    }
}

} // verus!

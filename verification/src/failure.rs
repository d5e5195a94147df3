//! What a failure means for the work that met it.
//!
//! Throttling is waited out and never reaches the caller. An item that
//! cannot be read is left out. Any other failure ends the run while the
//! program starts or catches up with the history, where going on would be
//! pointless; once the program follows the feed it costs the one update it
//! struck, and the next update is taken.

use vstd::prelude::*;

verus! {

/// What the program is doing.
#[derive(Debug, Clone, Copy, PartialEq, Eq, Structural)]
pub enum Phase {
    /// Opening the archive, signing in, finding the chat.
    Startup,
    /// Fetching the history.
    Backfill,
    /// Following the feed.
    Live,
}

/// What went wrong.
#[derive(Debug, Clone, Copy, PartialEq, Eq, Structural)]
pub enum FailureKind {
    /// The source throttled the call.
    RateLimited,
    /// The source or the way to it failed otherwise.
    Remote,
    /// The archive failed.
    Storage,
    /// The source delivered something unreadable.
    Malformed,
}

/// What to do about it.
#[derive(Debug, Clone, Copy, PartialEq, Eq, Structural)]
pub enum Reaction {
    /// Make the call again after the wait.
    Retry,
    /// Leave the item or the update out and go on with the next.
    Skip,
    /// Give up the run and report the failure.
    Abort,
}

/// The reaction that a failure of `kind` calls for during `phase`.
pub open spec fn reaction_to(phase: Phase, kind: FailureKind) -> Reaction {
    match kind {
        FailureKind::RateLimited => Reaction::Retry,
        FailureKind::Malformed => Reaction::Skip,
        FailureKind::Remote | FailureKind::Storage => if phase == Phase::Live {
            Reaction::Skip
        } else {
            Reaction::Abort
        },
    }
}

/// Decides what a failure means for the work that met it.
pub fn react(phase: Phase, kind: FailureKind) -> (r: Reaction)
    ensures
        r == reaction_to(phase, kind),
        r == Reaction::Abort ==> phase != Phase::Live,
        kind == FailureKind::RateLimited <==> r == Reaction::Retry,
{
    match kind {
        FailureKind::RateLimited => Reaction::Retry,
        FailureKind::Malformed => Reaction::Skip,
        FailureKind::Remote | FailureKind::Storage => match phase {
            Phase::Live => Reaction::Skip,
            _ => Reaction::Abort,
        },
    }
}

} // verus!

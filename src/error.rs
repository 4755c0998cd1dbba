use vstd::prelude::*;

verus! {

/// The errors that the clock's operations return.
#[derive(Clone, Copy, Debug, PartialEq, Eq, Structural)]
pub enum TimeError {
    /// A wait or a query named a tick that has already occurred.
    ThatTimeHasAlreadyHappened,
    /// A time-based operation was asked of a paused clock.
    EventSyncPaused,
    /// A paused clock could not be started again.
    FailedToStartEventSync,
}

} // verus!

//! The handle-return state machine.
//!
//! A checked-out handle is released exactly once — release consumes the
//! handle, so the transition out of the checked-out state cannot fire twice —
//! and from there it reaches exactly one of two terminal states: the builder
//! is returned to its origin pool, or it is discarded.

use vstd::prelude::*;

verus! {

/// The terminal state a released handle's builder ends in.
#[derive(Clone, Copy, Debug, PartialEq, Eq, Structural)]
pub enum ReleaseOutcome {
    /// The builder went back into its origin pool, reset.
    Returned,
    /// The builder was dropped: the handle was drained, the origin pool was
    /// gone, or the pool was already full.
    Discarded,
}

/// What happens to a released builder, given the three facts checked at
/// release time: whether the handle was drained, whether the origin pool is
/// still alive, and whether that pool is already at capacity.
pub open spec fn release_outcome(drained: bool, pool_alive: bool, pool_full: bool) -> ReleaseOutcome {
    if drained || !pool_alive || pool_full {
        ReleaseOutcome::Discarded
    } else {
        ReleaseOutcome::Returned
    }
}

/// The release decision as executable code, for a caller that performs the
/// outside work (resolving a weak back-reference, dropping storage) itself
/// and only needs the verdict.
pub fn decide_release(drained: bool, pool_alive: bool, pool_full: bool) -> (o: ReleaseOutcome)
    ensures
        o == release_outcome(drained, pool_alive, pool_full),
{
    if drained || !pool_alive || pool_full {
        ReleaseOutcome::Discarded
    } else {
        ReleaseOutcome::Returned
    }
}

/// Law: a released builder reaches a terminal state, and it is `Returned`
/// exactly when the handle was not drained, the origin pool was still alive,
/// and that pool had room; in every other case it is `Discarded`.  No third
/// state exists, so a builder is returned or discarded, never both.
pub proof fn lemma_release_terminal(drained: bool, pool_alive: bool, pool_full: bool)
    ensures
        release_outcome(drained, pool_alive, pool_full) == ReleaseOutcome::Returned <==> (!drained
            && pool_alive && !pool_full),
        release_outcome(drained, pool_alive, pool_full) == ReleaseOutcome::Discarded <==> (drained
            || !pool_alive || pool_full),
{
}

} // verus!

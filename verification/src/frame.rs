//! Per-frame decision of when a committed control-window state is applied to the world.
//!
//! A committed state is detected by its apply counter. While a tangent dive is active the
//! world must not be rebuilt underneath it, so a pending state is stashed, the dive is forced
//! back to world mode, and the stashed state is applied on the next frame.

use vstd::prelude::*;

verus! {

/// Where the state to apply comes from.
#[derive(Clone, Copy, Debug, PartialEq, Eq, Structural)]
pub enum PendingSource {
    /// The state stashed on an earlier frame.
    Deferred,
    /// A fresh copy of the shared control-window state.
    Shared,
}

/// What the frame does with a pending state.
#[derive(Clone, Copy, Debug, PartialEq, Eq, Structural)]
pub enum ApplyStep {
    /// No state is pending.
    Nothing,
    /// Apply the state now.
    Apply(PendingSource),
    /// Stash the state and force the dive back to world mode.
    Defer(PendingSource),
}

/// What `pending_apply_step` decides.
pub open spec fn pending_step(
    has_deferred: bool,
    last_counter: u64,
    shared_counter: u64,
    should_defer: bool,
) -> ApplyStep {
    let source = if has_deferred {
        Some(PendingSource::Deferred)
    } else if last_counter != shared_counter {
        Some(PendingSource::Shared)
    } else {
        None
    };
    match source {
        None => ApplyStep::Nothing,
        Some(s) => if should_defer {
            ApplyStep::Defer(s)
        } else {
            ApplyStep::Apply(s)
        },
    }
}

/// Decides what this frame does with a pending control-window state.
///
/// A stashed state takes precedence; otherwise a shared state whose apply counter differs
/// from the last applied one is pending. A pending state is deferred while the dive asks for
/// it.
pub fn pending_apply_step(
    has_deferred: bool,
    last_counter: u64,
    shared_counter: u64,
    should_defer: bool,
) -> (r: ApplyStep)
    ensures
        r == pending_step(has_deferred, last_counter, shared_counter, should_defer),
{
    let source = if has_deferred {
        Some(PendingSource::Deferred)
    } else if last_counter != shared_counter {
        Some(PendingSource::Shared)
    } else {
        None
    };
    match source {
        None => ApplyStep::Nothing,
        Some(s) => if should_defer {
            ApplyStep::Defer(s)
        } else {
            ApplyStep::Apply(s)
        },
    }
}

/// No state is ever applied while the dive asks for deferral, and a state deferred on one
/// frame is applied on the next once the dive is back in world mode, whatever the counters.
pub proof fn lemma_deferred_state_is_applied_next(
    has_deferred: bool,
    last_counter: u64,
    shared_counter: u64,
    next_last: u64,
    next_shared: u64,
)
    ensures
        !(pending_step(has_deferred, last_counter, shared_counter, true) is Apply),
        pending_step(has_deferred, last_counter, shared_counter, true) matches ApplyStep::Defer(_)
            ==> pending_step(true, next_last, next_shared, false) == ApplyStep::Apply(
            PendingSource::Deferred,
        ),
        pending_step(false, last_counter, last_counter, false) == ApplyStep::Nothing,
{
}

/// What each frame does, case by case: with nothing stashed and the apply counter unchanged
/// nothing is pending and nothing happens, whether or not a dive is active; a stashed state,
/// or else a shared state whose counter moved on, is applied outside a dive and stashed
/// during one.
pub proof fn lemma_pending_step_cases(last_counter: u64, shared_counter: u64, should_defer: bool)
    ensures
        pending_step(false, last_counter, last_counter, should_defer) == ApplyStep::Nothing,
        last_counter != shared_counter ==> pending_step(
            false,
            last_counter,
            shared_counter,
            should_defer,
        ) == if should_defer {
            ApplyStep::Defer(PendingSource::Shared)
        } else {
            ApplyStep::Apply(PendingSource::Shared)
        },
        pending_step(true, last_counter, shared_counter, should_defer) == if should_defer {
            ApplyStep::Defer(PendingSource::Deferred)
        } else {
            ApplyStep::Apply(PendingSource::Deferred)
        },
        pending_step(false, last_counter, shared_counter, should_defer) != ApplyStep::Nothing
            ==> last_counter != shared_counter,
{
}

} // verus!

//! Frame pacing: how long the event loop waits before the next redraw.
//!
//! The loop aims at a fixed frame rate. After dispatching an event it measures
//! the milliseconds elapsed since the loop started and schedules the next
//! wake-up at `loop start + wait`, where `wait` is the remainder of the target
//! interval. Anchoring the deadline to the loop's start rather than to the
//! previous frame keeps scheduling jitter from accumulating; an iteration that
//! overruns the interval simply gets a zero wait.

use vstd::prelude::*;

verus! {

/// Target frame rate of the redraw cadence, in frames per second.
pub const TARGET_FPS: u64 = 60;

/// Milliseconds between two frames at the target rate.
pub const FRAME_INTERVAL_MILLIS: u64 = 1000 / TARGET_FPS;

/// The wait, in milliseconds, before the next wake-up: the part of the target
/// interval not yet spent, and zero once the interval has been overrun.
pub open spec fn wait_after(elapsed_millis: u64) -> u64 {
    if elapsed_millis <= FRAME_INTERVAL_MILLIS {
        (FRAME_INTERVAL_MILLIS - elapsed_millis) as u64
    } else {
        0
    }
}

/// Computes the wait before the next wake-up from the milliseconds elapsed
/// since the loop started.
pub fn compute_wait(elapsed_millis: u64) -> (wait: u64)
    ensures
        wait == wait_after(elapsed_millis),
        elapsed_millis <= FRAME_INTERVAL_MILLIS ==> wait == FRAME_INTERVAL_MILLIS - elapsed_millis,
        elapsed_millis > FRAME_INTERVAL_MILLIS ==> wait == 0,
{
    if FRAME_INTERVAL_MILLIS >= elapsed_millis {
        FRAME_INTERVAL_MILLIS - elapsed_millis
    } else {
        0
    }
}

/// The wait is anchored to the loop's start: as long as the interval is not
/// overrun, elapsed time plus wait always lands on the same absolute deadline,
/// and more elapsed time never yields a longer wait.
pub proof fn lemma_wait_anchored(earlier_millis: u64, later_millis: u64)
    requires
        earlier_millis <= later_millis,
    ensures
        wait_after(later_millis) <= wait_after(earlier_millis),
        earlier_millis <= FRAME_INTERVAL_MILLIS ==> earlier_millis + wait_after(earlier_millis)
            == FRAME_INTERVAL_MILLIS,
{
}

} // verus!

//! The decision at the heart of the event loop that keeps an overlay shown.
//!
//! The loop itself (sleeping, or pumping the platform's events) runs outside
//! this crate; each time the caller's `should_stop` has answered, it asks
//! [`run_until`] what to do next.

use vstd::prelude::*;

verus! {

/// How long the loop waits (or pumps events) between two polls of
/// `should_stop`, in milliseconds: about one frame at 60 Hz.
pub const POLL_INTERVAL_MS: u64 = 16;

/// What the event loop does next.
#[derive(Debug, Clone, Copy, PartialEq, Eq, Structural)]
pub enum Step {
    /// Return to the caller.
    Stop,
    /// Wait, pumping platform events where there are any, for `millis`
    /// milliseconds, then poll again.
    Wait { millis: u64 },
}

/// Decides the next step of the loop that runs until `should_stop` returns
/// true: stop as soon as it does, otherwise wait one poll interval.
pub fn run_until(should_stop: bool) -> (next: Step)
    ensures
        should_stop ==> next == Step::Stop,
        !should_stop ==> next == (Step::Wait { millis: POLL_INTERVAL_MS }),
{
    if should_stop {
        Step::Stop
    } else {
        Step::Wait { millis: POLL_INTERVAL_MS }
    }
}

} // verus!

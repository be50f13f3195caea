//! Timer tokens and the drain back-off policy.
//!
//! A connection handler keeps its liveness checks and its outbound draining
//! going through periodic timers.  Each timer carries a small token saying
//! which periodic check fired.  The drain timer adapts its interval to what
//! the last non-blocking pull of the outbound channel returned.

use vstd::prelude::*;

verus! {

/// Delay, in milliseconds, of the very first timer(s) registered when a
/// connection becomes open.
pub const OPEN_DELAY_MS: u64 = 50;

/// Interval, in milliseconds, of the single periodic tick in the
/// combined-tick deployment.
pub const COMBINED_TICK_MS: u64 = 50;

/// Interval, in milliseconds, of the exit-check timer in the split-timer
/// deployment.
pub const EXIT_CHECK_MS: u64 = 500;

/// Drain-timer interval after a message was successfully pulled.
pub const DRAIN_MESSAGE_MS: u64 = 100;

/// Drain-timer interval after the outbound channel reported empty.
pub const DRAIN_EMPTY_MS: u64 = 50;

/// Drain-timer interval after the outbound channel reported that its
/// producer side is gone.
pub const DRAIN_DISCONNECTED_MS: u64 = 300;

/// Interval, in milliseconds, between the supervisor's polls of the exit
/// flag.
pub const SUPERVISOR_POLL_MS: u64 = 1000;

/// Tag distinguishing which periodic check fired.
#[derive(Clone, Copy, Debug, PartialEq, Eq, Structural)]
pub enum TimerToken {
    /// Single token of the combined-tick deployment: one firing checks the
    /// exit condition and drains at most one outbound message.
    Tick,
    /// Split-timer deployment: coarse poll of the exit flag only.
    ExitCheck,
    /// Split-timer deployment: adaptive poll of the outbound channel only.
    Drain,
}

/// What one non-blocking pull of the outbound channel returned.
#[derive(Debug)]
pub enum DrainResult {
    /// One serialized frame was pulled and must be written out.
    Message(Vec<u8>),
    /// Nothing was queued; transient.
    Empty,
    /// The producer side is gone; terminal for this channel.
    Disconnected,
}

/// Interval at which the drain timer reschedules itself after observing
/// `r`, per the adaptive back-off table.
pub open spec fn spec_drain_interval(r: &DrainResult) -> u64 {
    match r {
        DrainResult::Message(_) => DRAIN_MESSAGE_MS,
        DrainResult::Empty => DRAIN_EMPTY_MS,
        DrainResult::Disconnected => DRAIN_DISCONNECTED_MS,
    }
}

/// Adaptive back-off of the drain timer: a pulled message reschedules at a
/// short interval, an empty channel at a shorter one to reduce latency, a
/// disconnected producer at a long one to avoid busy-looping on a channel
/// that will never produce again.
pub fn drain_interval(r: &DrainResult) -> (ms: u64)
    ensures
        ms == spec_drain_interval(r),
        r is Message ==> ms == DRAIN_MESSAGE_MS,
        r is Empty ==> ms == DRAIN_EMPTY_MS,
        r is Disconnected ==> ms == DRAIN_DISCONNECTED_MS,
{
    match r {
        DrainResult::Message(_) => DRAIN_MESSAGE_MS,
        DrainResult::Empty => DRAIN_EMPTY_MS,
        DrainResult::Disconnected => DRAIN_DISCONNECTED_MS,
    }
}

} // verus!

//! Readiness polling decisions.
//!
//! The chip exposes a one-byte status register whose bit 0 signals that
//! data is ready to be read.  The caller that owns the bus re-reads that
//! byte in a loop; each attempt is decided here, from the byte read (or the
//! fact that the read failed) and the wall-clock time elapsed so far.

use vstd::prelude::*;

verus! {

/// Milliseconds slept between two poll attempts.
pub const POLL_INTERVAL_MS: u64 = 5;

/// Readiness deadline before consuming an acknowledgement.
pub const ACK_TIMEOUT_MS: u64 = 50;

/// Readiness deadline before consuming a response.
pub const RESPONSE_TIMEOUT_MS: u64 = 1000;

/// What one poll attempt decides.
#[derive(Clone, Copy, Debug, PartialEq, Eq, Structural)]
pub enum PollStep {
    /// The chip signalled readiness: stop polling and read.
    Ready,
    /// Not ready and the deadline has passed: give up.
    TimedOut,
    /// Not ready, deadline not passed: sleep the interval and read again.
    RetryAfterDelay,
}

/// Whether a status byte signals readiness: bit 0 set.
pub open spec fn spec_is_ready(status: u8) -> bool {
    status & 0x01 == 0x01
}

/// The decision for one poll attempt.  A failed status read (`None`)
/// counts as "not yet ready", never as an error of its own.
pub open spec fn spec_poll_decision(status: Option<u8>, elapsed_ms: u64, timeout_ms: u64) -> PollStep {
    if status matches Some(s) && spec_is_ready(s) {
        PollStep::Ready
    } else if elapsed_ms > timeout_ms {
        PollStep::TimedOut
    } else {
        PollStep::RetryAfterDelay
    }
}

/// Whether a status byte signals readiness.
pub fn is_ready(status: u8) -> (r: bool)
    ensures
        r == spec_is_ready(status),
{
    status & 0x01 == 0x01
}

/// Decides one poll attempt: ready as soon as the readiness bit is set,
/// timed out once the elapsed wall-clock time exceeds the deadline, and
/// otherwise another read after the fixed delay.
pub fn poll_step(status: Option<u8>, elapsed_ms: u64, timeout_ms: u64) -> (r: PollStep)
    ensures
        r == spec_poll_decision(status, elapsed_ms, timeout_ms),
{
    let ready = match status {
        Some(s) => is_ready(s),
        None => false,
    };
    if ready {
        PollStep::Ready
    } else if elapsed_ms > timeout_ms {
        PollStep::TimedOut
    } else {
        PollStep::RetryAfterDelay
    }
}

/// Law: against a chip that never sets the readiness bit, polling never
/// reports readiness, and it gives up exactly when the elapsed wall-clock
/// time exceeds the configured timeout.
pub proof fn lemma_poll_expiry(status: Option<u8>, elapsed_ms: u64, timeout_ms: u64)
    requires
        !(status matches Some(s) && spec_is_ready(s)),
    ensures
        spec_poll_decision(status, elapsed_ms, timeout_ms) != PollStep::Ready,
        spec_poll_decision(status, elapsed_ms, timeout_ms) == PollStep::TimedOut <==> elapsed_ms
            > timeout_ms,
{
}

} // verus!

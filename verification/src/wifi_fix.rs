use vstd::prelude::*;

verus! {

/// A network-link driver failure surfaced by the reconnect sequence.
#[derive(Clone, Copy, Debug, PartialEq, Eq, Structural)]
pub enum WifiError {
    /// Stopping or restarting the link driver between attempts failed.
    DriverFailure,
}

/// Blocking reconnection with retry, for the link driver to implement: keep
/// attempting to connect, pausing between attempts by the backoff policy
/// below, until the link is up.
pub trait WifiConnectFix {
    /// Blocks until the link is connected and has an address, retrying
    /// failed attempts indefinitely.
    fn connect_with_retry(&mut self) -> Result<(), WifiError>;
}

/// The pause before the first reconnect attempt, in milliseconds.
pub const INITIAL_RETRY_DELAY_MS: u64 = 1_000;

/// The longest pause between reconnect attempts, in milliseconds.
pub const MAX_RETRY_DELAY_MS: u64 = 10_000;

/// The pause after one more failed attempt: doubled, capped at the maximum.
pub open spec fn spec_next_retry_delay(delay_ms: u64) -> u64 {
    if 2 * delay_ms <= MAX_RETRY_DELAY_MS {
        (2 * delay_ms) as u64
    } else {
        MAX_RETRY_DELAY_MS
    }
}

/// Computes the pause before the next reconnect attempt from the current
/// one: exponential backoff, capped at the maximum.
pub fn next_retry_delay(delay_ms: u64) -> (r: u64)
    ensures
        r == spec_next_retry_delay(delay_ms),
{
    if delay_ms <= MAX_RETRY_DELAY_MS / 2 {
        delay_ms * 2
    } else {
        MAX_RETRY_DELAY_MS
    }
}

} // verus!

//! When a bus counts as delivering live signals.

use vstd::prelude::*;

verus! {

/// How recently signals must have arrived for the source to count as live,
/// in nanoseconds (500 ms).
pub const LIVE_WINDOW_NS: u128 = 500_000_000;

/// Whether signals count as live given the time since the last received
/// signals, or `None` when none has been received yet.
pub fn live_since(elapsed_ns: Option<u128>) -> (live: bool)
    ensures
        live == match elapsed_ns {
            Some(e) => e < LIVE_WINDOW_NS,
            None => false,
        },
{
    match elapsed_ns {
        Some(e) => e < LIVE_WINDOW_NS,
        None => false,
    }
}

} // verus!

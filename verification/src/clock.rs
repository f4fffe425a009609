//! Points in time and spans of time, both in whole seconds.
//!
//! The core never reads a clock: every operation that depends on the time takes
//! the present moment as an argument.

use vstd::prelude::*;

verus! {

/// The moment at which something that starts at `now` and lasts `span` runs
/// out. A moment beyond the last one that a `u64` can hold is that last one.
pub open spec fn expiry(now: u64, span: u64) -> u64 {
    if now + span > u64::MAX {
        u64::MAX
    } else {
        (now + span) as u64
    }
}

/// Whether something that runs out at `expires_at` has run out at `now`.
pub open spec fn expired(expires_at: u64, now: u64) -> bool {
    now >= expires_at
}

/// Computes [`expiry`].
pub fn deadline(now: u64, span: u64) -> (at: u64)
    ensures
        at == expiry(now, span),
{
    if span > u64::MAX - now {
        u64::MAX
    } else {
        now + span
    }
}

/// Computes [`expired`].
pub fn has_expired(expires_at: u64, now: u64) -> (gone: bool)
    ensures
        gone == expired(expires_at, now),
{
    now >= expires_at
}

} // verus!

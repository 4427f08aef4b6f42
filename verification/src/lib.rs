//! A verified token-distribution state machine: a campaign registry, a
//! per-user allocation ledger, a one-time claim with a referral bonus, and a
//! thirty-day vesting schedule that releases one percent of each allocation
//! per cycle. Every operation is a pure transition from the records a request
//! names to either an error or the exact set of record updates, transfers and
//! events to commit; the surrounding ledger runtime performs the transfers
//! and owns atomicity.

use vstd::prelude::*;

pub mod admin;
pub mod claim;
pub mod errors;
pub mod events;
pub mod identity;
pub mod initialize;
pub mod laws;
pub mod records;
pub mod unlock;

verus! {

/// Seconds in one vesting cycle: thirty days.
pub const UNLOCK_PERIOD_SECONDS: i64 = 30 * 86400;

/// The slice of a user's total allocation released by one unlock: one percent,
/// truncated toward zero.
pub fn unlock_quantum(total_allocation: u64) -> (r: u64)
    ensures
        r == total_allocation / 100,
{
    total_allocation / 100
}

} // verus!

use vstd::prelude::*;
use crate::identity::AccountId;

verus! {

/// Emitted when a claim grants a user their allocation.
#[derive(Clone, Copy, Debug, PartialEq)]
pub struct AllocationAdded {
    pub user: AccountId,
    pub amount: u64,
    pub timestamp: i64,
}

/// Emitted when the admin disables further allocation growth.
#[derive(Clone, Copy, Debug, PartialEq)]
pub struct AllocationEnded {
    pub by: AccountId,
    pub timestamp: i64,
}

/// Emitted when tokens are released to a user, by the initial claim or by a
/// recurring unlock.
#[derive(Clone, Copy, Debug, PartialEq)]
pub struct AllocationUnlocked {
    pub by: AccountId,
    pub amount_unlocked: u64,
    pub total_claimed: u64,
    pub timestamp: i64,
}

} // verus!

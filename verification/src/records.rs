use vstd::prelude::*;
use crate::identity::AccountId;

verus! {

/// The campaign registry record: one per admin authority, created once by
/// `initialize` and disabled (never destroyed) by `end_allocation`.
#[derive(Clone, Copy, Debug, PartialEq)]
pub struct PloutosData {
    /// The campaign owner; receives the native-currency claim fee.
    pub admin_wallet: AccountId,
    /// Native-currency fee charged to each claimant.
    pub fee_amount: u64,
    /// The fungible token being distributed.
    pub token_mint: AccountId,
    /// The program-custodied token account backing all payouts.
    pub program_token_account: AccountId,
    /// Configured size of the custodied reserve.
    pub reserve_amount: u64,
    /// Per-user allocation baseline granted by a claim.
    pub airdrop_amount: u64,
    /// While true, allocations may still grow.
    pub allocation_enabled: bool,
    /// Set exactly once; guards against re-initialization.
    pub initialized: bool,
}

/// The per-participant allocation ledger record: created on first claim,
/// mutated by claims, unlocks and referral credits, never destroyed.
#[derive(Clone, Copy, Debug, PartialEq, Eq, Structural)]
pub struct UserData {
    /// When the initial claim or the latest unlock happened.
    pub claim_timestamp: i64,
    /// True once the user has performed their one-time claim.
    pub claimed: bool,
    /// Cumulative entitlement.
    pub total_allocation: u64,
    /// Cumulative amount already transferred to the user.
    pub total_claimed: u64,
    /// Number of downline claims credited to this record.
    pub referral_count: u64,
}

impl UserData {
    /// The ledger invariant: a user can never have been paid more than their
    /// entitlement.
    pub open spec fn wf(self) -> bool {
        self.total_claimed <= self.total_allocation
    }
}

/// What the operations read of a fungible-token account: its address, its
/// token type, its owning authority and its balance.
#[derive(Clone, Copy, Debug, PartialEq)]
pub struct TokenAccountState {
    pub key: AccountId,
    pub mint: AccountId,
    pub owner: AccountId,
    pub amount: u64,
}

/// A requested movement of campaign tokens from the custodied reserve,
/// to be signed by the derived campaign authority.
#[derive(Clone, Copy, Debug, PartialEq)]
pub struct TokenTransfer {
    pub from: AccountId,
    pub to: AccountId,
    pub amount: u64,
}

/// A requested movement of native currency between two wallets.
#[derive(Clone, Copy, Debug, PartialEq)]
pub struct NativeTransfer {
    pub from: AccountId,
    pub to: AccountId,
    pub amount: u64,
}

} // verus!

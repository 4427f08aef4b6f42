use vstd::prelude::*;

verus! {

/// Why an operation was rejected. Every failure aborts the whole request and
/// leaves all records and balances unchanged.
#[derive(Clone, Copy, Debug, PartialEq, Eq, Structural)]
pub enum ErrorCode {
    /// The campaign record has already been initialized.
    AlreadyInitialized,
    /// A supplied token account's mint differs from the campaign's token.
    MintMismatch,
    /// A caller-supplied account is not the authority derived for the campaign.
    PdaMismatch,
    /// The user has already performed their one-time claim.
    AirdropAlreadyClaimed,
    /// Thirty days have not yet elapsed since the last claim or unlock.
    UnlockPeriodNotMet,
    /// The whole allocation has been claimed; nothing is left to unlock.
    ClaimCompleted,
    /// Allocation growth has been disabled for this campaign.
    AllocationNotEnabled,
    /// The caller is not the campaign's admin.
    Unauthorized,
    /// The supplied token account is not the campaign's reserve account.
    InvalidTokenAccount,
    /// The reserve token account is not owned by the campaign record.
    InvalidTokenAccountOwner,
    /// The reserve token account does not hold the configured reserve.
    InsufficientFunds,
}

} // verus!

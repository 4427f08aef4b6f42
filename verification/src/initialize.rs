use vstd::prelude::*;
use crate::errors::ErrorCode;
use crate::identity::AccountId;
use crate::records::{PloutosData, TokenAccountState, UserData};

verus! {

/// The accounts an `initialize` request names: the campaign record being
/// created, its address, the initializing signer, and the reserve token
/// account that will back the campaign's payouts.
#[derive(Clone, Copy, Debug, PartialEq)]
pub struct Initialize {
    pub data: PloutosData,
    pub data_key: AccountId,
    pub user: AccountId,
    pub program_token_account: TokenAccountState,
}

/// What a successful `initialize` writes: the configured campaign record and
/// the initializer's own freshly created allocation record.
#[derive(Clone, Copy, Debug, PartialEq)]
pub struct InitializeEffects {
    pub data: PloutosData,
    pub user_data: UserData,
}

/// The first check an `initialize` request fails, if any.
pub open spec fn initialize_guard(
    ctx: Initialize,
    token_mint: AccountId,
    reserve_amount: u64,
) -> Option<ErrorCode> {
    if ctx.data.initialized {
        Some(ErrorCode::AlreadyInitialized)
    } else if ctx.program_token_account.mint.bytes@ != token_mint.bytes@ {
        Some(ErrorCode::InvalidTokenAccount)
    } else if ctx.program_token_account.owner.bytes@ != ctx.data_key.bytes@ {
        Some(ErrorCode::InvalidTokenAccountOwner)
    } else if ctx.program_token_account.amount < reserve_amount {
        Some(ErrorCode::InsufficientFunds)
    } else {
        None
    }
}

/// The records a successful `initialize` writes.
pub open spec fn initialize_updates(
    ctx: Initialize,
    fee_receiver: AccountId,
    fee_amount: u64,
    token_mint: AccountId,
    reserve_amount: u64,
    airdrop_amount: u64,
    now: i64,
) -> InitializeEffects {
    InitializeEffects {
        data: PloutosData {
            admin_wallet: fee_receiver,
            fee_amount: fee_amount,
            token_mint: token_mint,
            program_token_account: ctx.program_token_account.key,
            reserve_amount: reserve_amount,
            airdrop_amount: airdrop_amount,
            allocation_enabled: true,
            initialized: true,
        },
        user_data: UserData {
            claim_timestamp: now,
            claimed: true,
            total_allocation: airdrop_amount,
            total_claimed: 0,
            referral_count: 0,
        },
    }
}

/// The full outcome of an `initialize` request.
pub open spec fn initialize_outcome(
    ctx: Initialize,
    fee_receiver: AccountId,
    fee_amount: u64,
    token_mint: AccountId,
    reserve_amount: u64,
    airdrop_amount: u64,
    now: i64,
) -> Result<InitializeEffects, ErrorCode> {
    match initialize_guard(ctx, token_mint, reserve_amount) {
        Some(e) => Err(e),
        None => Ok(
            initialize_updates(
                ctx,
                fee_receiver,
                fee_amount,
                token_mint,
                reserve_amount,
                airdrop_amount,
                now,
            ),
        ),
    }
}

/// Creates the campaign. Validates that the supplied reserve token account
/// holds the campaign's token, is owned by the campaign record's address, and
/// already holds the configured reserve; then writes the configuration,
/// enables allocation, and opens the initializer's own allocation record with
/// the airdrop baseline and nothing yet claimed. A second call on the same
/// record fails with `AlreadyInitialized`.
pub fn initialize(
    ctx: &Initialize,
    fee_receiver: AccountId,
    fee_amount: u64,
    token_mint: AccountId,
    reserve_amount: u64,
    airdrop_amount: u64,
    now: i64,
) -> (r: Result<InitializeEffects, ErrorCode>)
    ensures
        r == initialize_outcome(
            *ctx,
            fee_receiver,
            fee_amount,
            token_mint,
            reserve_amount,
            airdrop_amount,
            now,
        ),
        ctx.data.initialized <==> r == Err::<InitializeEffects, ErrorCode>(
            ErrorCode::AlreadyInitialized,
        ),
        r matches Ok(eff) ==> {
            &&& eff.data.initialized
            &&& eff.data.allocation_enabled
            &&& eff.data.program_token_account.bytes@ == ctx.program_token_account.key.bytes@
            &&& eff.user_data.claimed
            &&& eff.user_data.total_allocation == airdrop_amount
            &&& eff.user_data.total_claimed == 0
            &&& eff.user_data.wf()
        },
{
    if ctx.data.initialized {
        return Err(ErrorCode::AlreadyInitialized);
    }
    if !(ctx.program_token_account.mint == token_mint) {
        return Err(ErrorCode::InvalidTokenAccount);
    }
    if !(ctx.program_token_account.owner == ctx.data_key) {
        return Err(ErrorCode::InvalidTokenAccountOwner);
    }
    if ctx.program_token_account.amount < reserve_amount {
        return Err(ErrorCode::InsufficientFunds);
    }
    Ok(InitializeEffects {
        data: PloutosData {
            admin_wallet: fee_receiver,
            fee_amount: fee_amount,
            token_mint: token_mint,
            program_token_account: ctx.program_token_account.key,
            reserve_amount: reserve_amount,
            airdrop_amount: airdrop_amount,
            allocation_enabled: true,
            initialized: true,
        },
        user_data: UserData {
            claim_timestamp: now,
            claimed: true,
            total_allocation: airdrop_amount,
            total_claimed: 0,
            referral_count: 0,
        },
    })
}

} // verus!

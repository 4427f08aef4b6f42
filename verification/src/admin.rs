use vstd::prelude::*;
use crate::errors::ErrorCode;
use crate::events::AllocationEnded;
use crate::identity::AccountId;
use crate::records::{PloutosData, UserData};

verus! {

/// The accounts an `increase_allocation` request names: the campaign record,
/// the target allocation record, and the signer (who must be the admin).
#[derive(Clone, Copy, Debug, PartialEq)]
pub struct IncreaseAllocation {
    pub ploutos_data: PloutosData,
    pub user_data: UserData,
    pub user: AccountId,
}

/// The accounts an `end_allocation` request names: the campaign record and
/// the signer (who must be the admin).
#[derive(Clone, Copy, Debug, PartialEq)]
pub struct EndAllocation {
    pub ploutos_data: PloutosData,
    pub admin_wallet: AccountId,
}

/// What a successful `end_allocation` commits: the disabled campaign record
/// and the emitted event.
#[derive(Clone, Copy, Debug, PartialEq)]
pub struct EndEffects {
    pub ploutos_data: PloutosData,
    pub allocation_ended: AllocationEnded,
}

/// The first check an `increase_allocation` request fails, if any: the signer
/// must be the campaign's admin, and allocation growth must still be enabled.
pub open spec fn increase_guard(ctx: IncreaseAllocation) -> Option<ErrorCode> {
    if ctx.user.bytes@ != ctx.ploutos_data.admin_wallet.bytes@ {
        Some(ErrorCode::Unauthorized)
    } else if !ctx.ploutos_data.allocation_enabled {
        Some(ErrorCode::AllocationNotEnabled)
    } else {
        None
    }
}

/// The full outcome of an `increase_allocation` request: the target record
/// with its entitlement grown by the given amount.
pub open spec fn increase_outcome(ctx: IncreaseAllocation, additional_amount: u64) -> Result<
    UserData,
    ErrorCode,
> {
    match increase_guard(ctx) {
        Some(e) => Err(e),
        None => Ok(
            UserData {
                claim_timestamp: ctx.user_data.claim_timestamp,
                claimed: ctx.user_data.claimed,
                total_allocation: (ctx.user_data.total_allocation + additional_amount) as u64,
                total_claimed: ctx.user_data.total_claimed,
                referral_count: ctx.user_data.referral_count,
            },
        ),
    }
}

/// Grows a user's entitlement by `additional_amount`. Only the campaign's
/// admin may call it, and only while allocation is still enabled; nothing
/// else of the record changes and no upper bound is enforced.
pub fn increase_allocation(ctx: &IncreaseAllocation, additional_amount: u64) -> (r: Result<
    UserData,
    ErrorCode,
>)
    requires
        (ctx.user.bytes@ == ctx.ploutos_data.admin_wallet.bytes@
            && ctx.ploutos_data.allocation_enabled) ==> ctx.user_data.total_allocation
            + additional_amount <= u64::MAX,
    ensures
        r == increase_outcome(*ctx, additional_amount),
        ctx.user.bytes@ != ctx.ploutos_data.admin_wallet.bytes@ ==> r == Err::<
            UserData,
            ErrorCode,
        >(ErrorCode::Unauthorized),
        ctx.user.bytes@ == ctx.ploutos_data.admin_wallet.bytes@
            && !ctx.ploutos_data.allocation_enabled ==> r == Err::<UserData, ErrorCode>(
            ErrorCode::AllocationNotEnabled,
        ),
        r matches Ok(updated) ==> {
            &&& updated.total_allocation == ctx.user_data.total_allocation + additional_amount
            &&& updated.total_claimed == ctx.user_data.total_claimed
            &&& updated.claimed == ctx.user_data.claimed
            &&& updated.claim_timestamp == ctx.user_data.claim_timestamp
            &&& updated.referral_count == ctx.user_data.referral_count
            &&& (ctx.user_data.wf() ==> updated.wf())
        },
{
    if !(ctx.user == ctx.ploutos_data.admin_wallet) {
        return Err(ErrorCode::Unauthorized);
    }
    if !ctx.ploutos_data.allocation_enabled {
        return Err(ErrorCode::AllocationNotEnabled);
    }
    Ok(UserData {
        claim_timestamp: ctx.user_data.claim_timestamp,
        claimed: ctx.user_data.claimed,
        total_allocation: ctx.user_data.total_allocation + additional_amount,
        total_claimed: ctx.user_data.total_claimed,
        referral_count: ctx.user_data.referral_count,
    })
}

/// The first check an `end_allocation` request fails, if any.
pub open spec fn end_guard(ctx: EndAllocation) -> Option<ErrorCode> {
    if ctx.admin_wallet.bytes@ != ctx.ploutos_data.admin_wallet.bytes@ {
        Some(ErrorCode::Unauthorized)
    } else if !ctx.ploutos_data.allocation_enabled {
        Some(ErrorCode::AllocationNotEnabled)
    } else {
        None
    }
}

/// The full outcome of an `end_allocation` request: the campaign record with
/// allocation growth disabled, and the emitted event.
pub open spec fn end_outcome(ctx: EndAllocation, now: i64) -> Result<EndEffects, ErrorCode> {
    match end_guard(ctx) {
        Some(e) => Err(e),
        None => Ok(
            EndEffects {
                ploutos_data: PloutosData {
                    admin_wallet: ctx.ploutos_data.admin_wallet,
                    fee_amount: ctx.ploutos_data.fee_amount,
                    token_mint: ctx.ploutos_data.token_mint,
                    program_token_account: ctx.ploutos_data.program_token_account,
                    reserve_amount: ctx.ploutos_data.reserve_amount,
                    airdrop_amount: ctx.ploutos_data.airdrop_amount,
                    allocation_enabled: false,
                    initialized: ctx.ploutos_data.initialized,
                },
                allocation_ended: AllocationEnded { by: ctx.admin_wallet, timestamp: now },
            },
        ),
    }
}

/// Disables further allocation growth. Only the campaign's admin may call it,
/// and only once: a second call fails with `AllocationNotEnabled`. Nothing
/// else of the campaign record changes.
pub fn end_allocation(ctx: &EndAllocation, now: i64) -> (r: Result<EndEffects, ErrorCode>)
    ensures
        r == end_outcome(*ctx, now),
        ctx.admin_wallet.bytes@ != ctx.ploutos_data.admin_wallet.bytes@ ==> r == Err::<
            EndEffects,
            ErrorCode,
        >(ErrorCode::Unauthorized),
        ctx.admin_wallet.bytes@ == ctx.ploutos_data.admin_wallet.bytes@
            && !ctx.ploutos_data.allocation_enabled ==> r == Err::<EndEffects, ErrorCode>(
            ErrorCode::AllocationNotEnabled,
        ),
        r matches Ok(eff) ==> {
            &&& !eff.ploutos_data.allocation_enabled
            &&& eff.ploutos_data.admin_wallet == ctx.ploutos_data.admin_wallet
            &&& eff.ploutos_data.airdrop_amount == ctx.ploutos_data.airdrop_amount
            &&& eff.ploutos_data.initialized == ctx.ploutos_data.initialized
            &&& eff.allocation_ended.by == ctx.admin_wallet
            &&& eff.allocation_ended.timestamp == now
        },
{
    if !(ctx.admin_wallet == ctx.ploutos_data.admin_wallet) {
        return Err(ErrorCode::Unauthorized);
    }
    if !ctx.ploutos_data.allocation_enabled {
        return Err(ErrorCode::AllocationNotEnabled);
    }
    Ok(EndEffects {
        ploutos_data: PloutosData {
            admin_wallet: ctx.ploutos_data.admin_wallet,
            fee_amount: ctx.ploutos_data.fee_amount,
            token_mint: ctx.ploutos_data.token_mint,
            program_token_account: ctx.ploutos_data.program_token_account,
            reserve_amount: ctx.ploutos_data.reserve_amount,
            airdrop_amount: ctx.ploutos_data.airdrop_amount,
            allocation_enabled: false,
            initialized: ctx.ploutos_data.initialized,
        },
        allocation_ended: AllocationEnded { by: ctx.admin_wallet, timestamp: now },
    })
}

} // verus!

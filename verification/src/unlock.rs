use vstd::prelude::*;
use crate::errors::ErrorCode;
use crate::events::AllocationUnlocked;
use crate::identity::{authority_matches, derive_campaign_authority, AccountId};
use crate::records::{PloutosData, TokenTransfer, UserData};
use crate::{unlock_quantum, UNLOCK_PERIOD_SECONDS};

verus! {

/// The accounts an `unlock_allocation` request names: the signer, the
/// signer's token account, the signer's allocation record, the campaign
/// record, the reserve token account's address, and the executing program.
#[derive(Clone, Copy, Debug, PartialEq)]
pub struct UnlockAllocation {
    pub user: AccountId,
    pub user_token_account: AccountId,
    pub user_data: UserData,
    pub airdrop_data: PloutosData,
    pub program_token_account_key: AccountId,
    pub program_id: AccountId,
}

/// Everything a successful unlock commits: the updated allocation record, the
/// token movement to perform, and the emitted event.
#[derive(Clone, Copy, Debug, PartialEq)]
pub struct UnlockEffects {
    pub user_data: UserData,
    pub token_transfer: TokenTransfer,
    pub allocation_unlocked: AllocationUnlocked,
}

/// The first check an unlock fails, if any. Time is checked first, then the
/// reserve account's identity, then whether a further quantum still fits in
/// the allocation, and the derived-authority comparison last.
pub open spec fn unlock_guard(ctx: UnlockAllocation, now: i64) -> Option<ErrorCode> {
    if now - ctx.user_data.claim_timestamp < UNLOCK_PERIOD_SECONDS {
        Some(ErrorCode::UnlockPeriodNotMet)
    } else if ctx.program_token_account_key.bytes@
        != ctx.airdrop_data.program_token_account.bytes@ {
        Some(ErrorCode::InvalidTokenAccount)
    } else if ctx.user_data.total_claimed + ctx.user_data.total_allocation / 100
        > ctx.user_data.total_allocation {
        Some(ErrorCode::ClaimCompleted)
    } else if !authority_matches(
        ctx.airdrop_data.admin_wallet,
        ctx.program_id,
        ctx.program_token_account_key,
    ) {
        Some(ErrorCode::PdaMismatch)
    } else {
        None
    }
}

/// What a successful unlock commits: one percent of the total allocation
/// moves from the reserve to the user, the record's claimed total grows by
/// that quantum, and the timestamp advances to now. The emitted event's
/// cumulative total adds the quantum once more on top of the freshly stored
/// total: a known inconsistency between persisted state and telemetry that
/// is kept as it is rather than resolved here.
pub open spec fn unlock_updates(ctx: UnlockAllocation, now: i64) -> UnlockEffects {
    let quantum = ctx.user_data.total_allocation / 100;
    let new_claimed = (ctx.user_data.total_claimed + quantum) as u64;
    UnlockEffects {
        user_data: UserData {
            claim_timestamp: now,
            claimed: ctx.user_data.claimed,
            total_allocation: ctx.user_data.total_allocation,
            total_claimed: new_claimed,
            referral_count: ctx.user_data.referral_count,
        },
        token_transfer: TokenTransfer {
            from: ctx.program_token_account_key,
            to: ctx.user_token_account,
            amount: quantum,
        },
        allocation_unlocked: AllocationUnlocked {
            by: ctx.user,
            amount_unlocked: quantum,
            total_claimed: (new_claimed + quantum) as u64,
            timestamp: now,
        },
    }
}

/// The full outcome of an unlock request.
pub open spec fn unlock_outcome(ctx: UnlockAllocation, now: i64) -> Result<
    UnlockEffects,
    ErrorCode,
> {
    match unlock_guard(ctx, now) {
        Some(e) => Err(e),
        None => Ok(unlock_updates(ctx, now)),
    }
}

/// The recurring vesting release. Rejects an unlock before thirty days have
/// elapsed since the last claim or unlock, a reserve token account other than
/// the campaign's, a fully claimed allocation, and a reserve account that is
/// not the authority derived for the campaign's admin. On success it releases
/// exactly one percent of the total allocation, truncated toward zero.
pub fn unlock_allocation(ctx: &UnlockAllocation, now: i64) -> (r: Result<
    UnlockEffects,
    ErrorCode,
>)
    requires
        i64::MIN <= now - ctx.user_data.claim_timestamp <= i64::MAX,
        (now - ctx.user_data.claim_timestamp >= UNLOCK_PERIOD_SECONDS
            && ctx.program_token_account_key.bytes@
                == ctx.airdrop_data.program_token_account.bytes@) ==> {
            &&& ctx.user_data.total_claimed + ctx.user_data.total_allocation / 100 <= u64::MAX
            &&& (ctx.user_data.total_claimed + ctx.user_data.total_allocation / 100
                <= ctx.user_data.total_allocation ==> ctx.user_data.total_allocation
                + ctx.user_data.total_allocation / 100 <= u64::MAX)
        },
    ensures
        r == unlock_outcome(*ctx, now),
        now - ctx.user_data.claim_timestamp < UNLOCK_PERIOD_SECONDS ==> r == Err::<
            UnlockEffects,
            ErrorCode,
        >(ErrorCode::UnlockPeriodNotMet),
        (now - ctx.user_data.claim_timestamp >= UNLOCK_PERIOD_SECONDS
            && ctx.program_token_account_key.bytes@
                != ctx.airdrop_data.program_token_account.bytes@) ==> r == Err::<
            UnlockEffects,
            ErrorCode,
        >(ErrorCode::InvalidTokenAccount),
        r matches Ok(eff) ==> {
            &&& eff.user_data.wf()
            &&& eff.user_data.total_allocation == ctx.user_data.total_allocation
            &&& eff.user_data.total_claimed == ctx.user_data.total_claimed
                + ctx.user_data.total_allocation / 100
            &&& eff.user_data.claim_timestamp == now
            &&& eff.user_data.claimed == ctx.user_data.claimed
            &&& eff.user_data.referral_count == ctx.user_data.referral_count
            &&& eff.token_transfer.amount == ctx.user_data.total_allocation / 100
            &&& eff.token_transfer.from.bytes@ == ctx.program_token_account_key.bytes@
            &&& eff.token_transfer.to.bytes@ == ctx.user_token_account.bytes@
        },
{
    if now - ctx.user_data.claim_timestamp < UNLOCK_PERIOD_SECONDS {
        return Err(ErrorCode::UnlockPeriodNotMet);
    }
    if !(ctx.program_token_account_key == ctx.airdrop_data.program_token_account) {
        return Err(ErrorCode::InvalidTokenAccount);
    }
    let allocation_to_unlock = unlock_quantum(ctx.user_data.total_allocation);
    if ctx.user_data.total_claimed + allocation_to_unlock > ctx.user_data.total_allocation {
        return Err(ErrorCode::ClaimCompleted);
    }
    let derived = derive_campaign_authority(&ctx.airdrop_data.admin_wallet, &ctx.program_id);
    match derived {
        None => Err(ErrorCode::PdaMismatch),
        Some((authority, _bump)) => {
            if !(authority == ctx.program_token_account_key) {
                return Err(ErrorCode::PdaMismatch);
            }
            let new_claimed = ctx.user_data.total_claimed + allocation_to_unlock;
            Ok(UnlockEffects {
                user_data: UserData {
                    claim_timestamp: now,
                    claimed: ctx.user_data.claimed,
                    total_allocation: ctx.user_data.total_allocation,
                    total_claimed: new_claimed,
                    referral_count: ctx.user_data.referral_count,
                },
                token_transfer: TokenTransfer {
                    from: ctx.program_token_account_key,
                    to: ctx.user_token_account,
                    amount: allocation_to_unlock,
                },
                allocation_unlocked: AllocationUnlocked {
                    by: ctx.user,
                    amount_unlocked: allocation_to_unlock,
                    total_claimed: new_claimed + allocation_to_unlock,
                    timestamp: now,
                },
            })
        }
    }
}

} // verus!

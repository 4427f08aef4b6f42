use vstd::prelude::*;
use crate::errors::ErrorCode;
use crate::events::{AllocationAdded, AllocationUnlocked};
use crate::identity::{authority_matches, derive_campaign_authority, AccountId};
use crate::records::{NativeTransfer, PloutosData, TokenAccountState, TokenTransfer, UserData};

verus! {

/// The accounts a `claim_airdrop` request names: the claiming signer, the
/// campaign admin's wallet, the claimant's token account, the claimant's and
/// the nominated upline's allocation records, the reserve token account, the
/// campaign record with its address, and the executing program.
#[derive(Clone, Copy, Debug, PartialEq)]
pub struct ClaimAirdrop {
    pub user: AccountId,
    pub admin_wallet: AccountId,
    pub user_token_account: AccountId,
    pub user_data: UserData,
    pub upline_data: UserData,
    pub program_token_account: TokenAccountState,
    pub airdrop_data: PloutosData,
    pub airdrop_data_key: AccountId,
    pub program_id: AccountId,
}

/// Everything a successful claim commits: the two updated ledger records, the
/// fee and token movements to perform, and the two emitted events.
#[derive(Clone, Copy, Debug, PartialEq)]
pub struct ClaimEffects {
    pub user_data: UserData,
    pub upline_data: UserData,
    pub fee_transfer: NativeTransfer,
    pub token_transfer: TokenTransfer,
    pub allocation_added: AllocationAdded,
    pub allocation_unlocked: AllocationUnlocked,
}

/// The first check a claim fails, if any. The mint comparison guards account
/// selection and so runs before everything else; the derived-authority
/// comparison runs last.
pub open spec fn claim_guard(ctx: ClaimAirdrop) -> Option<ErrorCode> {
    if ctx.airdrop_data.token_mint.bytes@ != ctx.program_token_account.mint.bytes@ {
        Some(ErrorCode::MintMismatch)
    } else if ctx.user_data.claimed {
        Some(ErrorCode::AirdropAlreadyClaimed)
    } else if ctx.program_token_account.key.bytes@ != ctx.airdrop_data.program_token_account.bytes@ {
        Some(ErrorCode::InvalidTokenAccount)
    } else if !authority_matches(ctx.admin_wallet, ctx.program_id, ctx.airdrop_data_key) {
        Some(ErrorCode::PdaMismatch)
    } else {
        None
    }
}

/// What a successful claim commits: the claimant's record is granted the
/// airdrop baseline with one percent paid out at once, the upline is credited
/// one referral and ten percent of the baseline, the configured fee moves to
/// the admin, and one percent of the baseline moves from the reserve to the
/// claimant.
pub open spec fn claim_updates(ctx: ClaimAirdrop, now: i64) -> ClaimEffects {
    let amount = ctx.airdrop_data.airdrop_amount;
    ClaimEffects {
        user_data: UserData {
            claim_timestamp: now,
            claimed: true,
            total_allocation: amount,
            total_claimed: amount / 100,
            referral_count: ctx.user_data.referral_count,
        },
        upline_data: UserData {
            claim_timestamp: ctx.upline_data.claim_timestamp,
            claimed: ctx.upline_data.claimed,
            total_allocation: (ctx.upline_data.total_allocation + amount / 10) as u64,
            total_claimed: ctx.upline_data.total_claimed,
            referral_count: (ctx.upline_data.referral_count + 1) as u64,
        },
        fee_transfer: NativeTransfer {
            from: ctx.user,
            to: ctx.admin_wallet,
            amount: ctx.airdrop_data.fee_amount,
        },
        token_transfer: TokenTransfer {
            from: ctx.program_token_account.key,
            to: ctx.user_token_account,
            amount: amount / 100,
        },
        allocation_added: AllocationAdded { user: ctx.user, amount: amount, timestamp: now },
        allocation_unlocked: AllocationUnlocked {
            by: ctx.user,
            amount_unlocked: amount / 100,
            total_claimed: amount / 100,
            timestamp: now,
        },
    }
}

/// The full outcome of a claim request.
pub open spec fn claim_outcome(ctx: ClaimAirdrop, now: i64) -> Result<ClaimEffects, ErrorCode> {
    match claim_guard(ctx) {
        Some(e) => Err(e),
        None => Ok(claim_updates(ctx, now)),
    }
}

/// The one-time entry into a campaign. Rejects a repeated claim, a reserve
/// token account other than the campaign's, and a campaign record whose
/// address is not the authority derived for the supplied admin wallet. On
/// success it charges the fee, grants the claimant the airdrop baseline,
/// pays out one percent of it at once, and credits the caller-nominated
/// upline with one referral and ten percent of the baseline.
pub fn claim_airdrop(ctx: &ClaimAirdrop, now: i64) -> (r: Result<ClaimEffects, ErrorCode>)
    requires
        (ctx.airdrop_data.token_mint.bytes@ == ctx.program_token_account.mint.bytes@
            && !ctx.user_data.claimed
            && ctx.program_token_account.key.bytes@
                == ctx.airdrop_data.program_token_account.bytes@) ==> {
            &&& ctx.upline_data.referral_count < u64::MAX
            &&& ctx.upline_data.total_allocation + ctx.airdrop_data.airdrop_amount / 10
                <= u64::MAX
        },
    ensures
        r == claim_outcome(*ctx, now),
        ctx.airdrop_data.token_mint.bytes@ == ctx.program_token_account.mint.bytes@
            && ctx.user_data.claimed ==> r == Err::<ClaimEffects, ErrorCode>(
            ErrorCode::AirdropAlreadyClaimed,
        ),
        r matches Ok(eff) ==> {
            &&& eff.user_data.wf()
            &&& eff.user_data.claimed
            &&& eff.user_data.claim_timestamp == now
            &&& eff.user_data.total_allocation == ctx.airdrop_data.airdrop_amount
            &&& eff.user_data.total_claimed == ctx.airdrop_data.airdrop_amount / 100
            &&& eff.token_transfer.amount == ctx.airdrop_data.airdrop_amount / 100
            &&& eff.fee_transfer.amount == ctx.airdrop_data.fee_amount
            &&& eff.upline_data.referral_count == ctx.upline_data.referral_count + 1
            &&& eff.upline_data.total_allocation == ctx.upline_data.total_allocation
                + ctx.airdrop_data.airdrop_amount / 10
            &&& eff.upline_data.total_claimed == ctx.upline_data.total_claimed
            &&& (ctx.upline_data.wf() ==> eff.upline_data.wf())
        },
{
    if !(ctx.airdrop_data.token_mint == ctx.program_token_account.mint) {
        return Err(ErrorCode::MintMismatch);
    }
    if ctx.user_data.claimed {
        return Err(ErrorCode::AirdropAlreadyClaimed);
    }
    if !(ctx.program_token_account.key == ctx.airdrop_data.program_token_account) {
        return Err(ErrorCode::InvalidTokenAccount);
    }
    let derived = derive_campaign_authority(&ctx.admin_wallet, &ctx.program_id);
    match derived {
        None => Err(ErrorCode::PdaMismatch),
        Some((authority, _bump)) => {
            if !(authority == ctx.airdrop_data_key) {
                return Err(ErrorCode::PdaMismatch);
            }
            let amount = ctx.airdrop_data.airdrop_amount;
            Ok(ClaimEffects {
                user_data: UserData {
                    claim_timestamp: now,
                    claimed: true,
                    total_allocation: amount,
                    total_claimed: amount / 100,
                    referral_count: ctx.user_data.referral_count,
                },
                upline_data: UserData {
                    claim_timestamp: ctx.upline_data.claim_timestamp,
                    claimed: ctx.upline_data.claimed,
                    total_allocation: ctx.upline_data.total_allocation + amount / 10,
                    total_claimed: ctx.upline_data.total_claimed,
                    referral_count: ctx.upline_data.referral_count + 1,
                },
                fee_transfer: NativeTransfer {
                    from: ctx.user,
                    to: ctx.admin_wallet,
                    amount: ctx.airdrop_data.fee_amount,
                },
                token_transfer: TokenTransfer {
                    from: ctx.program_token_account.key,
                    to: ctx.user_token_account,
                    amount: amount / 100,
                },
                allocation_added: AllocationAdded {
                    user: ctx.user,
                    amount: amount,
                    timestamp: now,
                },
                allocation_unlocked: AllocationUnlocked {
                    by: ctx.user,
                    amount_unlocked: amount / 100,
                    total_claimed: amount / 100,
                    timestamp: now,
                },
            })
        }
    }
}

} // verus!

use vstd::prelude::*;
use vstd::arithmetic::div_mod::lemma_fundamental_div_mod;
use vstd::arithmetic::mul::lemma_mul_inequality;
use crate::admin::{end_outcome, increase_outcome, EndAllocation, IncreaseAllocation};
use crate::claim::{claim_outcome, claim_updates, ClaimAirdrop, ClaimEffects};
use crate::errors::ErrorCode;
use crate::unlock::{unlock_outcome, UnlockAllocation, UnlockEffects};
use crate::UNLOCK_PERIOD_SECONDS;

verus! {

/// Law: a claim is one-time. A second claim by the same user, against the
/// allocation record that a first successful claim wrote and a reserve
/// account of the campaign's token, fails with `AirdropAlreadyClaimed`; a
/// failed request commits no effects, so every record and balance stays as it
/// was.
pub proof fn lemma_claim_is_one_time(
    ctx1: ClaimAirdrop,
    now1: i64,
    ctx2: ClaimAirdrop,
    now2: i64,
)
    requires
        ctx2.user_data == claim_updates(ctx1, now1).user_data,
        ctx2.airdrop_data.token_mint.bytes@ == ctx2.program_token_account.mint.bytes@,
    ensures
        claim_outcome(ctx2, now2) == Err::<ClaimEffects, ErrorCode>(
            ErrorCode::AirdropAlreadyClaimed,
        ),
{
}

/// Law: each successful unlock releases exactly one quantum, a hundredth of
/// the total allocation truncated toward zero, and grows the stored claimed
/// total by exactly that quantum while the allocation itself stays unchanged.
pub proof fn lemma_unlock_adds_one_quantum(ctx: UnlockAllocation, now: i64)
    requires
        unlock_outcome(ctx, now) is Ok,
    ensures
        unlock_outcome(ctx, now)->Ok_0.user_data.total_claimed == ctx.user_data.total_claimed
            + ctx.user_data.total_allocation / 100,
        unlock_outcome(ctx, now)->Ok_0.token_transfer.amount == ctx.user_data.total_allocation
            / 100,
        unlock_outcome(ctx, now)->Ok_0.user_data.total_allocation
            == ctx.user_data.total_allocation,
        ctx.user_data.total_claimed + ctx.user_data.total_allocation / 100
            <= ctx.user_data.total_allocation,
{
}

/// Law: under a constant allocation that is a positive multiple of one
/// hundred, vesting proceeds in exact hundredths. With the claimed total at m
/// quanta and m at most 100: while m < 100 another quantum still fits; a
/// passing unlock raises the claimed total to m + 1 quanta; and at m == 100
/// the whole allocation is claimed, so an unlock that reaches the vesting
/// check fails with `ClaimCompleted`.
pub proof fn lemma_vesting_schedule(ctx: UnlockAllocation, now: i64, m: nat)
    requires
        ctx.user_data.total_allocation as int % 100 == 0,
        ctx.user_data.total_allocation >= 100,
        m <= 100,
        ctx.user_data.total_claimed == m * (ctx.user_data.total_allocation as int / 100),
    ensures
        m < 100 ==> ctx.user_data.total_claimed + ctx.user_data.total_allocation / 100
            <= ctx.user_data.total_allocation,
        m == 100 ==> ctx.user_data.total_claimed == ctx.user_data.total_allocation,
        (m == 100 && now - ctx.user_data.claim_timestamp >= UNLOCK_PERIOD_SECONDS
            && ctx.program_token_account_key.bytes@
                == ctx.airdrop_data.program_token_account.bytes@) ==> unlock_outcome(ctx, now)
            == Err::<UnlockEffects, ErrorCode>(ErrorCode::ClaimCompleted),
        unlock_outcome(ctx, now) matches Ok(eff) ==> eff.user_data.total_claimed == (m + 1) * (
        ctx.user_data.total_allocation as int / 100),
{
    let a = ctx.user_data.total_allocation as int;
    let q = a / 100;
    lemma_fundamental_div_mod(a, 100);
    assert(a == 100 * q);
    assert(q >= 1);
    assert(m * q + q == (m + 1) * q) by (nonlinear_arith);
    if m < 100 {
        lemma_mul_inequality(m as int + 1, 100, q);
        assert((m + 1) * q <= 100 * q);
    }
}

/// Law: ending allocation is final for growth. On the campaign record a
/// successful `end_allocation` writes, any `increase_allocation` fails: with
/// `AllocationNotEnabled` for the admin, and with `Unauthorized` for anyone
/// else.
pub proof fn lemma_end_allocation_blocks_increase(
    ctx_end: EndAllocation,
    now: i64,
    ctx_inc: IncreaseAllocation,
    additional_amount: u64,
)
    requires
        end_outcome(ctx_end, now) is Ok,
        ctx_inc.ploutos_data == end_outcome(ctx_end, now)->Ok_0.ploutos_data,
    ensures
        increase_outcome(ctx_inc, additional_amount) is Err,
        ctx_inc.user.bytes@ == ctx_inc.ploutos_data.admin_wallet.bytes@ ==> increase_outcome(
            ctx_inc,
            additional_amount,
        ) == Err::<crate::records::UserData, ErrorCode>(ErrorCode::AllocationNotEnabled),
        ctx_inc.user.bytes@ != ctx_inc.ploutos_data.admin_wallet.bytes@ ==> increase_outcome(
            ctx_inc,
            additional_amount,
        ) == Err::<crate::records::UserData, ErrorCode>(ErrorCode::Unauthorized),
{
}

/// Law: the unlock quantum strictly truncates. A hundred quanta fall short of
/// the allocation by exactly the division residue `total_allocation % 100`,
/// and every successful unlock moves exactly one quantum, so that residue is
/// never redistributed.
pub proof fn lemma_unlock_quantum_truncates(ctx: UnlockAllocation, now: i64)
    ensures
        100 * (ctx.user_data.total_allocation as int / 100) + ctx.user_data.total_allocation
            as int % 100 == ctx.user_data.total_allocation,
        0 <= ctx.user_data.total_allocation as int % 100 < 100,
        unlock_outcome(ctx, now) matches Ok(eff) ==> eff.token_transfer.amount
            == ctx.user_data.total_allocation / 100,
{
    lemma_fundamental_div_mod(ctx.user_data.total_allocation as int, 100);
}

} // verus!

use ploutoslabs::admin::{end_allocation, increase_allocation, EndAllocation, IncreaseAllocation};
use ploutoslabs::claim::{claim_airdrop, ClaimAirdrop};
use ploutoslabs::errors::ErrorCode;
use ploutoslabs::identity::{derive_campaign_authority, AccountId};
use ploutoslabs::initialize::{initialize, Initialize};
use ploutoslabs::records::{PloutosData, TokenAccountState, UserData};
use ploutoslabs::unlock::{unlock_allocation, UnlockAllocation};
use ploutoslabs::UNLOCK_PERIOD_SECONDS;

const DAY: i64 = 86400;

fn key(b: u8) -> AccountId {
    AccountId { bytes: [b; 32] }
}

fn fresh_user() -> UserData {
    UserData { claim_timestamp: 0, claimed: false, total_allocation: 0, total_claimed: 0, referral_count: 0 }
}

fn campaign(admin: AccountId, program: AccountId, airdrop_amount: u64) -> (PloutosData, AccountId) {
    let authority = derive_campaign_authority(&admin, &program).expect("derivation succeeds").0;
    let data = PloutosData {
        admin_wallet: admin,
        fee_amount: 5_000,
        token_mint: key(3),
        program_token_account: authority,
        reserve_amount: 900_000_000,
        airdrop_amount,
        allocation_enabled: true,
        initialized: true,
    };
    (data, authority)
}

fn claim_ctx(airdrop_amount: u64) -> ClaimAirdrop {
    let admin = key(1);
    let program = key(2);
    let (data, authority) = campaign(admin, program, airdrop_amount);
    ClaimAirdrop {
        user: key(10),
        admin_wallet: admin,
        user_token_account: key(11),
        user_data: fresh_user(),
        upline_data: UserData {
            claim_timestamp: 500,
            claimed: true,
            total_allocation: 1_000_000,
            total_claimed: 10_000,
            referral_count: 2,
        },
        program_token_account: TokenAccountState {
            key: authority,
            mint: key(3),
            owner: authority,
            amount: 900_000_000,
        },
        airdrop_data: data,
        airdrop_data_key: authority,
        program_id: program,
    }
}

fn unlock_ctx(user_data: UserData, airdrop_amount: u64) -> UnlockAllocation {
    let admin = key(1);
    let program = key(2);
    let (data, authority) = campaign(admin, program, airdrop_amount);
    UnlockAllocation {
        user: key(10),
        user_token_account: key(11),
        user_data,
        airdrop_data: data,
        program_token_account_key: authority,
        program_id: program,
    }
}

#[test]
fn claim_pays_one_percent_and_credits_upline() {
    let ctx = claim_ctx(1_000_000);
    let eff = claim_airdrop(&ctx, 1_000).expect("claim succeeds");
    assert_eq!(eff.token_transfer.amount, 10_000);
    assert_eq!(eff.token_transfer.to, ctx.user_token_account);
    assert_eq!(eff.user_data.total_allocation, 1_000_000);
    assert_eq!(eff.user_data.total_claimed, 10_000);
    assert!(eff.user_data.claimed);
    assert_eq!(eff.user_data.claim_timestamp, 1_000);
    assert_eq!(eff.upline_data.total_allocation, 1_000_000 + 100_000);
    assert_eq!(eff.upline_data.referral_count, 3);
    assert_eq!(eff.upline_data.total_claimed, 10_000);
    assert_eq!(eff.fee_transfer.amount, 5_000);
    assert_eq!(eff.fee_transfer.from, ctx.user);
    assert_eq!(eff.fee_transfer.to, ctx.admin_wallet);
    assert_eq!(eff.allocation_added.amount, 1_000_000);
    assert_eq!(eff.allocation_added.user, ctx.user);
    assert_eq!(eff.allocation_unlocked.amount_unlocked, 10_000);
    assert_eq!(eff.allocation_unlocked.total_claimed, 10_000);
}

#[test]
fn claim_twice_fails_and_changes_nothing() {
    let ctx = claim_ctx(1_000_000);
    let eff = claim_airdrop(&ctx, 1_000).expect("first claim succeeds");
    let mut again = ctx;
    again.user_data = eff.user_data;
    let second = claim_airdrop(&again, 2_000);
    assert_eq!(second, Err(ErrorCode::AirdropAlreadyClaimed));
}

#[test]
fn claim_rejects_wrong_campaign_address() {
    let mut ctx = claim_ctx(1_000_000);
    ctx.airdrop_data_key = key(42);
    assert_eq!(claim_airdrop(&ctx, 1_000), Err(ErrorCode::PdaMismatch));
}

#[test]
fn claim_rejects_wrong_reserve_account() {
    let mut ctx = claim_ctx(1_000_000);
    ctx.program_token_account.key = key(42);
    assert_eq!(claim_airdrop(&ctx, 1_000), Err(ErrorCode::InvalidTokenAccount));
}

#[test]
fn claim_rejects_mint_mismatch() {
    let mut ctx = claim_ctx(1_000_000);
    ctx.program_token_account.mint = key(42);
    assert_eq!(claim_airdrop(&ctx, 1_000), Err(ErrorCode::MintMismatch));
}

#[test]
fn unlock_before_thirty_days_fails() {
    let user = UserData {
        claim_timestamp: 1_000,
        claimed: true,
        total_allocation: 1_000_000,
        total_claimed: 10_000,
        referral_count: 0,
    };
    let ctx = unlock_ctx(user, 1_000_000);
    let r = unlock_allocation(&ctx, 1_000 + 30 * DAY - 1);
    assert_eq!(r, Err(ErrorCode::UnlockPeriodNotMet));
}

#[test]
fn unlock_at_exactly_thirty_days_succeeds() {
    let user = UserData {
        claim_timestamp: 1_000,
        claimed: true,
        total_allocation: 1_000_000,
        total_claimed: 10_000,
        referral_count: 0,
    };
    let ctx = unlock_ctx(user, 1_000_000);
    assert_eq!(UNLOCK_PERIOD_SECONDS, 30 * DAY);
    let eff = unlock_allocation(&ctx, 1_000 + 30 * DAY).expect("unlock succeeds");
    assert_eq!(eff.token_transfer.amount, 10_000);
    assert_eq!(eff.user_data.total_claimed, 20_000);
    assert_eq!(eff.user_data.total_allocation, 1_000_000);
    assert_eq!(eff.user_data.claim_timestamp, 1_000 + 30 * DAY);
}

#[test]
fn unlock_with_substituted_reserve_fails() {
    let user = UserData {
        claim_timestamp: 1_000,
        claimed: true,
        total_allocation: 1_000_000,
        total_claimed: 10_000,
        referral_count: 0,
    };
    let mut ctx = unlock_ctx(user, 1_000_000);
    ctx.program_token_account_key = key(42);
    let r = unlock_allocation(&ctx, 1_000 + 30 * DAY);
    assert_eq!(r, Err(ErrorCode::InvalidTokenAccount));
}

#[test]
fn unlock_with_underived_authority_fails() {
    let user = UserData {
        claim_timestamp: 1_000,
        claimed: true,
        total_allocation: 1_000_000,
        total_claimed: 10_000,
        referral_count: 0,
    };
    let mut ctx = unlock_ctx(user, 1_000_000);
    // The supplied reserve account matches the recorded one, but that account
    // is not the authority derived for the campaign's admin.
    ctx.airdrop_data.program_token_account = key(42);
    ctx.program_token_account_key = key(42);
    let r = unlock_allocation(&ctx, 1_000 + 30 * DAY);
    assert_eq!(r, Err(ErrorCode::PdaMismatch));
}

#[test]
fn unlock_event_reports_double_added_total() {
    let user = UserData {
        claim_timestamp: 1_000,
        claimed: true,
        total_allocation: 1_000_000,
        total_claimed: 10_000,
        referral_count: 0,
    };
    let ctx = unlock_ctx(user, 1_000_000);
    let eff = unlock_allocation(&ctx, 1_000 + 30 * DAY).expect("unlock succeeds");
    // The stored total grows by one quantum; the emitted total adds the
    // quantum once more, an observed inconsistency that is kept as it is.
    assert_eq!(eff.user_data.total_claimed, 20_000);
    assert_eq!(eff.allocation_unlocked.total_claimed, 30_000);
    assert_eq!(eff.allocation_unlocked.amount_unlocked, 10_000);
}

#[test]
fn hundred_unlock_cycles_complete_the_allocation() {
    let ctx = claim_ctx(1_000_000);
    let eff = claim_airdrop(&ctx, 1_000).expect("claim succeeds");
    let mut user = eff.user_data;
    let mut now: i64 = 1_000;
    let mut successful: u32 = 0;
    loop {
        now += 30 * DAY;
        let unlock = unlock_ctx(user, 1_000_000);
        match unlock_allocation(&unlock, now) {
            Ok(step) => {
                assert_eq!(step.token_transfer.amount, 10_000);
                user = step.user_data;
                successful += 1;
            }
            Err(e) => {
                assert_eq!(e, ErrorCode::ClaimCompleted);
                break;
            }
        }
        assert!(successful <= 99, "vesting must terminate");
    }
    // One percent at claim time plus ninety-nine unlock cycles covers the
    // whole allocation.
    assert_eq!(successful, 99);
    assert_eq!(user.total_claimed, 1_000_000);
    assert_eq!(user.total_claimed, user.total_allocation);
}

#[test]
fn unlock_quantum_truncates() {
    // 101 is not divisible by 100: the quantum truncates to exactly 1 and
    // stays 1 in every cycle; the residue is never redistributed.
    let ctx = claim_ctx(101);
    let eff = claim_airdrop(&ctx, 1_000).expect("claim succeeds");
    assert_eq!(eff.token_transfer.amount, 1);
    assert_eq!(eff.user_data.total_claimed, 1);
    let mut user = eff.user_data;
    let mut now: i64 = 1_000;
    let mut successful: u32 = 0;
    loop {
        now += 30 * DAY;
        let unlock = unlock_ctx(user, 101);
        match unlock_allocation(&unlock, now) {
            Ok(step) => {
                assert_eq!(step.token_transfer.amount, 1);
                user = step.user_data;
                successful += 1;
            }
            Err(e) => {
                assert_eq!(e, ErrorCode::ClaimCompleted);
                break;
            }
        }
        assert!(successful <= 100, "vesting must terminate");
    }
    assert_eq!(successful, 100);
    assert_eq!(user.total_claimed, 101);
}

#[test]
fn end_allocation_by_non_admin_fails() {
    let admin = key(1);
    let (data, _) = campaign(admin, key(2), 1_000_000);
    let ctx = EndAllocation { ploutos_data: data, admin_wallet: key(9) };
    assert_eq!(end_allocation(&ctx, 7_000), Err(ErrorCode::Unauthorized));
}

#[test]
fn end_allocation_then_increase_fails() {
    let admin = key(1);
    let (data, _) = campaign(admin, key(2), 1_000_000);
    let ctx = EndAllocation { ploutos_data: data, admin_wallet: admin };
    let eff = end_allocation(&ctx, 7_000).expect("admin may end allocation");
    assert!(!eff.ploutos_data.allocation_enabled);
    assert_eq!(eff.allocation_ended.by, admin);
    assert_eq!(eff.allocation_ended.timestamp, 7_000);

    let second = end_allocation(
        &EndAllocation { ploutos_data: eff.ploutos_data, admin_wallet: admin },
        8_000,
    );
    assert_eq!(second, Err(ErrorCode::AllocationNotEnabled));

    let inc = IncreaseAllocation {
        ploutos_data: eff.ploutos_data,
        user_data: fresh_user(),
        user: admin,
    };
    assert_eq!(increase_allocation(&inc, 500), Err(ErrorCode::AllocationNotEnabled));
}

#[test]
fn increase_allocation_grows_entitlement() {
    let admin = key(1);
    let (data, _) = campaign(admin, key(2), 1_000_000);
    let user = UserData {
        claim_timestamp: 1_000,
        claimed: true,
        total_allocation: 1_000_000,
        total_claimed: 10_000,
        referral_count: 0,
    };
    let ctx = IncreaseAllocation { ploutos_data: data, user_data: user, user: admin };
    let updated = increase_allocation(&ctx, 250_000).expect("admin may increase");
    assert_eq!(updated.total_allocation, 1_250_000);
    assert_eq!(updated.total_claimed, 10_000);

    let outsider = IncreaseAllocation { ploutos_data: data, user_data: user, user: key(9) };
    assert_eq!(increase_allocation(&outsider, 250_000), Err(ErrorCode::Unauthorized));
}

#[test]
fn initialize_configures_campaign_and_opens_record() {
    let data_key = key(7);
    let ctx = Initialize {
        data: PloutosData {
            admin_wallet: key(0),
            fee_amount: 0,
            token_mint: key(0),
            program_token_account: key(0),
            reserve_amount: 0,
            airdrop_amount: 0,
            allocation_enabled: false,
            initialized: false,
        },
        data_key,
        user: key(1),
        program_token_account: TokenAccountState {
            key: key(8),
            mint: key(3),
            owner: data_key,
            amount: 900_000_000,
        },
    };
    let eff = initialize(&ctx, key(1), 5_000, key(3), 900_000_000, 1_000_000, 1_000)
        .expect("initialize succeeds");
    assert!(eff.data.initialized);
    assert!(eff.data.allocation_enabled);
    assert_eq!(eff.data.admin_wallet, key(1));
    assert_eq!(eff.data.fee_amount, 5_000);
    assert_eq!(eff.data.token_mint, key(3));
    assert_eq!(eff.data.program_token_account, key(8));
    assert_eq!(eff.data.reserve_amount, 900_000_000);
    assert_eq!(eff.data.airdrop_amount, 1_000_000);
    assert!(eff.user_data.claimed);
    assert_eq!(eff.user_data.total_allocation, 1_000_000);
    assert_eq!(eff.user_data.total_claimed, 0);
    assert_eq!(eff.user_data.claim_timestamp, 1_000);
    assert_eq!(eff.user_data.referral_count, 0);

    let again = Initialize { data: eff.data, ..ctx };
    assert_eq!(
        initialize(&again, key(1), 5_000, key(3), 900_000_000, 1_000_000, 2_000),
        Err(ErrorCode::AlreadyInitialized)
    );
}

#[test]
fn initialize_validates_reserve_account() {
    let data_key = key(7);
    let blank = PloutosData {
        admin_wallet: key(0),
        fee_amount: 0,
        token_mint: key(0),
        program_token_account: key(0),
        reserve_amount: 0,
        airdrop_amount: 0,
        allocation_enabled: false,
        initialized: false,
    };
    let good_account = TokenAccountState {
        key: key(8),
        mint: key(3),
        owner: data_key,
        amount: 900_000_000,
    };

    let wrong_mint = Initialize {
        data: blank,
        data_key,
        user: key(1),
        program_token_account: TokenAccountState { mint: key(4), ..good_account },
    };
    assert_eq!(
        initialize(&wrong_mint, key(1), 5_000, key(3), 900_000_000, 1_000_000, 1_000),
        Err(ErrorCode::InvalidTokenAccount)
    );

    let wrong_owner = Initialize {
        data: blank,
        data_key,
        user: key(1),
        program_token_account: TokenAccountState { owner: key(9), ..good_account },
    };
    assert_eq!(
        initialize(&wrong_owner, key(1), 5_000, key(3), 900_000_000, 1_000_000, 1_000),
        Err(ErrorCode::InvalidTokenAccountOwner)
    );

    let short_balance = Initialize {
        data: blank,
        data_key,
        user: key(1),
        program_token_account: TokenAccountState { amount: 899_999_999, ..good_account },
    };
    assert_eq!(
        initialize(&short_balance, key(1), 5_000, key(3), 900_000_000, 1_000_000, 1_000),
        Err(ErrorCode::InsufficientFunds)
    );
}

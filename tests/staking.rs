use stake_program::{
    init_stakepool, plan_stake, plan_unstake, scaled_amount, stake, transfer, unstake, ErrorCode,
    Stake, StakeInfo, TokenAccount, Unstake,
};

fn fresh_stake(source: u64, decimals: u8) -> Stake {
    Stake {
        stake_info: StakeInfo::new(),
        staker_stake_token_account: TokenAccount::new(0),
        staker_token_account: TokenAccount::new(source),
        mint_decimals: decimals,
    }
}

fn unstake_accounts(s: &Stake, vault: u64) -> Unstake {
    Unstake {
        stake_info: s.stake_info,
        staker_stake_token_account: s.staker_stake_token_account,
        staker_token_account: s.staker_token_account,
        stake_pool_token_account: TokenAccount::new(vault),
        mint_decimals: s.mint_decimals,
    }
}

#[test]
fn second_stake_fails_already_staked_and_changes_nothing() {
    let mut s = fresh_stake(10_000_000, 6);
    assert_eq!(stake(&mut s, 3, 7), Ok(()));
    let after_first = s;
    assert_eq!(stake(&mut s, 2, 9), Err(ErrorCode::AlreadyStaked));
    assert_eq!(s, after_first);
    assert!(s.stake_info.is_staked);
    assert_eq!(s.stake_info.stake_at_slot, 7);
}

#[test]
fn unstake_on_fresh_record_fails_not_staked() {
    let s = fresh_stake(1_000, 0);
    let mut u = unstake_accounts(&s, 500);
    let before = u;
    assert_eq!(unstake(&mut u, 40), Err(ErrorCode::NotStaked));
    assert_eq!(u, before);
}

#[test]
fn unstake_twice_fails_not_staked() {
    let mut s = fresh_stake(1_000, 0);
    assert_eq!(stake(&mut s, 10, 5), Ok(()));
    let mut u = unstake_accounts(&s, 500);
    assert_eq!(unstake(&mut u, 8), Ok(()));
    let after = u;
    assert_eq!(unstake(&mut u, 9), Err(ErrorCode::NotStaked));
    assert_eq!(u, after);
}

#[test]
fn stake_zero_fails_invalid_amount() {
    let mut s = fresh_stake(1_000, 6);
    let before = s;
    assert_eq!(stake(&mut s, 0, 3), Err(ErrorCode::InvalidAmount));
    assert_eq!(s, before);
}

#[test]
fn stake_with_insufficient_balance_changes_nothing() {
    let mut s = fresh_stake(4_999_999, 6);
    let before = s;
    assert_eq!(stake(&mut s, 5, 3), Err(ErrorCode::InsufficientFunds));
    assert_eq!(s, before);
}

#[test]
fn stake_scaling_overflow_changes_nothing() {
    let mut s = fresh_stake(u64::MAX, 19);
    let before = s;
    assert_eq!(stake(&mut s, 2, 3), Err(ErrorCode::Overflow));
    assert_eq!(s, before);
}

#[test]
fn unstake_with_empty_vault_changes_nothing() {
    let mut s = fresh_stake(5_000_000, 6);
    assert_eq!(stake(&mut s, 5, 0), Ok(()));
    let mut u = unstake_accounts(&s, 99_999_999);
    let before = u;
    assert_eq!(unstake(&mut u, 100), Err(ErrorCode::InsufficientFunds));
    assert_eq!(u, before);
}

#[test]
fn unstake_with_clock_behind_start_changes_nothing() {
    let mut s = fresh_stake(5, 0);
    assert_eq!(stake(&mut s, 5, 50), Ok(()));
    let mut u = unstake_accounts(&s, 1_000);
    let before = u;
    assert_eq!(unstake(&mut u, 49), Err(ErrorCode::ClockMovedBackward));
    assert_eq!(u, before);
}

#[test]
fn unstake_credit_overflow_changes_nothing() {
    let mut s = fresh_stake(u64::MAX, 0);
    assert_eq!(stake(&mut s, 10, 0), Ok(()));
    let mut u = unstake_accounts(&s, 1_000);
    let before = u;
    assert_eq!(unstake(&mut u, 11), Err(ErrorCode::Overflow));
    assert_eq!(u, before);
}

#[test]
fn stake_then_unstake_same_slot_returns_principal_without_reward() {
    let mut s = fresh_stake(12_345_678, 3);
    assert_eq!(stake(&mut s, 1_000, 77), Ok(()));
    assert_eq!(s.staker_stake_token_account.amount, 1_000_000);
    assert_eq!(s.staker_token_account.amount, 11_345_678);
    let mut u = unstake_accounts(&s, 42);
    assert_eq!(unstake(&mut u, 77), Ok(()));
    assert_eq!(u.stake_pool_token_account.amount, 42);
    assert_eq!(u.staker_stake_token_account.amount, 0);
    assert_eq!(u.staker_token_account.amount, 12_345_678);
    assert!(!u.stake_info.is_staked);
    assert_eq!(u.stake_info.stake_at_slot, 77);
}

#[test]
fn reward_grows_linearly_with_elapsed_slots() {
    assert_eq!(scaled_amount(0, 6), Some(0));
    assert_eq!(scaled_amount(1, 6), Some(1_000_000));
    assert_eq!(scaled_amount(7, 6), Some(7_000_000));
    assert!(scaled_amount(3, 2).unwrap() < scaled_amount(4, 2).unwrap());
    let mut info = StakeInfo { stake_at_slot: 10, is_staked: true };
    assert_eq!(plan_unstake(&mut info, 2, 13), Ok(300));
    let mut info = StakeInfo { stake_at_slot: 10, is_staked: true };
    assert_eq!(plan_unstake(&mut info, 2, 14), Ok(400));
}

#[test]
fn six_decimals_stake_five_unstake_after_hundred_slots() {
    let mut s = fresh_stake(5_000_000, 6);
    assert_eq!(stake(&mut s, 5, 1_000), Ok(()));
    assert_eq!(s.staker_stake_token_account.amount, 5_000_000);
    assert_eq!(s.staker_token_account.amount, 0);
    let mut u = unstake_accounts(&s, 150_000_000);
    assert_eq!(unstake(&mut u, 1_100), Ok(()));
    assert_eq!(u.stake_pool_token_account.amount, 50_000_000);
    assert_eq!(u.staker_stake_token_account.amount, 0);
    assert_eq!(u.staker_token_account.amount, 105_000_000);
    assert!(!u.stake_info.is_staked);
}

#[test]
fn unstake_releases_whole_custody_balance() {
    let mut s = fresh_stake(100, 0);
    s.staker_stake_token_account = TokenAccount::new(30);
    assert_eq!(stake(&mut s, 20, 0), Ok(()));
    assert_eq!(s.staker_stake_token_account.amount, 50);
    let mut u = unstake_accounts(&s, 10);
    assert_eq!(unstake(&mut u, 2), Ok(()));
    assert_eq!(u.staker_token_account.amount, 80 + 2 + 50);
    assert_eq!(u.stake_pool_token_account.amount, 8);
}

#[test]
fn scaled_amount_edges() {
    assert_eq!(scaled_amount(1, 0), Some(1));
    assert_eq!(scaled_amount(1, 19), Some(10_000_000_000_000_000_000));
    assert_eq!(scaled_amount(1, 20), None);
    assert_eq!(scaled_amount(2, 19), None);
    assert_eq!(scaled_amount(0, 255), Some(0));
    assert_eq!(scaled_amount(u64::MAX, 0), Some(u64::MAX));
    assert_eq!(scaled_amount(u64::MAX, 1), None);
    assert_eq!(scaled_amount(18, 18), Some(18_000_000_000_000_000_000));
}

#[test]
fn record_state_machine() {
    let mut info = StakeInfo::new();
    assert_eq!(info, StakeInfo { stake_at_slot: 0, is_staked: false });
    assert_eq!(info.end_stake(3), Err(ErrorCode::NotStaked));
    assert_eq!(info.begin_stake(5), Ok(()));
    assert_eq!(info, StakeInfo { stake_at_slot: 5, is_staked: true });
    assert_eq!(info.begin_stake(6), Err(ErrorCode::AlreadyStaked));
    assert_eq!(info.end_stake(4), Err(ErrorCode::ClockMovedBackward));
    assert_eq!(info.end_stake(12), Ok(7));
    assert_eq!(info, StakeInfo { stake_at_slot: 12, is_staked: false });
}

#[test]
fn plan_stake_decides_deposit() {
    let mut info = StakeInfo::new();
    assert_eq!(plan_stake(&mut info, 0, 6, 1), Err(ErrorCode::InvalidAmount));
    assert_eq!(info, StakeInfo::new());
    assert_eq!(plan_stake(&mut info, 5, 20, 1), Err(ErrorCode::Overflow));
    assert_eq!(info, StakeInfo::new());
    assert_eq!(plan_stake(&mut info, 5, 6, 9), Ok(5_000_000));
    assert_eq!(info, StakeInfo { stake_at_slot: 9, is_staked: true });
    assert_eq!(plan_stake(&mut info, 5, 6, 10), Err(ErrorCode::AlreadyStaked));
}

#[test]
fn plan_unstake_overflow_keeps_record() {
    let mut info = StakeInfo { stake_at_slot: 0, is_staked: true };
    assert_eq!(plan_unstake(&mut info, 19, 2), Err(ErrorCode::Overflow));
    assert_eq!(info, StakeInfo { stake_at_slot: 0, is_staked: true });
}

#[test]
fn transfer_moves_or_refuses() {
    let mut a = TokenAccount::new(10);
    let mut b = TokenAccount::new(5);
    assert_eq!(transfer(&mut a, &mut b, 4), Ok(()));
    assert_eq!((a.amount, b.amount), (6, 9));
    assert_eq!(transfer(&mut a, &mut b, 7), Err(ErrorCode::InsufficientFunds));
    assert_eq!((a.amount, b.amount), (6, 9));
    let mut c = TokenAccount::new(u64::MAX);
    assert_eq!(transfer(&mut a, &mut c, 1), Err(ErrorCode::Overflow));
    assert_eq!((a.amount, c.amount), (6, u64::MAX));
}

#[test]
fn pool_starts_with_empty_vault() {
    let pool = init_stakepool(9);
    assert_eq!(pool.stake_pool_token_account.amount, 0);
    assert_eq!(pool.mint_decimals, 9);
}

#[test]
fn error_messages() {
    assert_eq!(ErrorCode::AlreadyStaked.message(), "tokens already staked");
    assert_eq!(ErrorCode::NotStaked.message(), "tokens not staked yet");
    assert_eq!(ErrorCode::InvalidAmount.message(), "no tokens to stake");
    assert_eq!(ErrorCode::Overflow.message(), "arithmetic overflow");
    assert_eq!(ErrorCode::InsufficientFunds.message(), "insufficient funds");
    assert_eq!(ErrorCode::ClockMovedBackward.message(), "clock moved backward");
}

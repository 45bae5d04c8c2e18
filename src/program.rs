use vstd::prelude::*;
use crate::amount::{scaled, scaled_amount};
use crate::error::ErrorCode;
use crate::record::StakeInfo;
use crate::token::{transfer, transfer_outcome, TokenAccount};

verus! {

/// The pool-wide accounts: the reward vault and the token's decimal precision.
#[derive(Clone, Copy, Debug, PartialEq, Eq, Structural)]
pub struct StakePool {
    pub stake_pool_token_account: TokenAccount,
    pub mint_decimals: u8,
}

/// The accounts that `stake` reads and writes for one participant.
#[derive(Clone, Copy, Debug, PartialEq, Eq, Structural)]
pub struct Stake {
    pub stake_info: StakeInfo,
    /// Custody account that holds the staked principal.
    pub staker_stake_token_account: TokenAccount,
    /// The participant's own token account, source of the deposit.
    pub staker_token_account: TokenAccount,
    pub mint_decimals: u8,
}

/// The accounts that `unstake` reads and writes for one participant.
#[derive(Clone, Copy, Debug, PartialEq, Eq, Structural)]
pub struct Unstake {
    pub stake_info: StakeInfo,
    /// Custody account that holds the staked principal.
    pub staker_stake_token_account: TokenAccount,
    /// The participant's own token account, which receives reward and principal.
    pub staker_token_account: TokenAccount,
    /// The reward vault.
    pub stake_pool_token_account: TokenAccount,
    pub mint_decimals: u8,
}

/// The accounts after `stake(amount)` at slot `now`, or the error it fails with.
pub open spec fn stake_outcome(ctx: Stake, amount: u64, now: u64) -> Result<Stake, ErrorCode> {
    let deposit = scaled(amount as nat, ctx.mint_decimals as nat);
    if ctx.stake_info.is_staked {
        Err(ErrorCode::AlreadyStaked)
    } else if amount == 0 {
        Err(ErrorCode::InvalidAmount)
    } else if deposit > u64::MAX {
        Err(ErrorCode::Overflow)
    } else {
        match transfer_outcome(ctx.staker_token_account, ctx.staker_stake_token_account, deposit) {
            Err(e) => Err(e),
            Ok((source, custody)) => Ok(
                Stake {
                    stake_info: StakeInfo { stake_at_slot: now, is_staked: true },
                    staker_stake_token_account: custody,
                    staker_token_account: source,
                    mint_decimals: ctx.mint_decimals,
                },
            ),
        }
    }
}

/// The reward in base units for `elapsed` slots: one whole token per slot.
pub open spec fn reward(elapsed: nat, decimals: nat) -> nat {
    scaled(elapsed, decimals)
}

/// The accounts after `unstake()` at slot `now`, or the error it fails with.
/// The reward is paid from the vault first, then the whole custody balance is
/// returned to the participant.
pub open spec fn unstake_outcome(ctx: Unstake, now: u64) -> Result<Unstake, ErrorCode> {
    let info = ctx.stake_info;
    let payout = reward((now - info.stake_at_slot) as nat, ctx.mint_decimals as nat);
    let custody = ctx.staker_stake_token_account;
    if !info.is_staked {
        Err(ErrorCode::NotStaked)
    } else if now < info.stake_at_slot {
        Err(ErrorCode::ClockMovedBackward)
    } else if payout > u64::MAX {
        Err(ErrorCode::Overflow)
    } else {
        match transfer_outcome(ctx.stake_pool_token_account, ctx.staker_token_account, payout) {
            Err(e) => Err(e),
            Ok((vault, paid)) => match transfer_outcome(custody, paid, custody.amount as nat) {
                Err(e) => Err(e),
                Ok((emptied, returned)) => Ok(
                    Unstake {
                        stake_info: StakeInfo { stake_at_slot: now, is_staked: false },
                        staker_stake_token_account: emptied,
                        staker_token_account: returned,
                        stake_pool_token_account: vault,
                        mint_decimals: ctx.mint_decimals,
                    },
                ),
            },
        }
    }
}

/// Creates the pool with an empty reward vault; funding it happens elsewhere.
pub fn init_stakepool(mint_decimals: u8) -> (r: StakePool)
    ensures
        r.stake_pool_token_account.amount == 0,
        r.mint_decimals == mint_decimals,
{
    StakePool { stake_pool_token_account: TokenAccount::new(0), mint_decimals }
}

/// Decides a stake at slot `now`: checks the record and the amount, marks the
/// record staked, and returns the deposit in base units. On error the record
/// is unchanged.
pub fn plan_stake(info: &mut StakeInfo, amount: u64, decimals: u8, now: u64) -> (r: Result<
    u64,
    ErrorCode,
>)
    ensures
        old(info).is_staked ==> r == Err::<u64, ErrorCode>(ErrorCode::AlreadyStaked),
        !old(info).is_staked && amount == 0 ==> r == Err::<u64, ErrorCode>(
            ErrorCode::InvalidAmount,
        ),
        !old(info).is_staked && amount != 0 && scaled(amount as nat, decimals as nat) > u64::MAX
            ==> r == Err::<u64, ErrorCode>(ErrorCode::Overflow),
        !old(info).is_staked && amount != 0 && scaled(amount as nat, decimals as nat)
            <= u64::MAX ==> r == Ok::<u64, ErrorCode>(
            scaled(amount as nat, decimals as nat) as u64,
        ) && *final(info) == (StakeInfo { stake_at_slot: now, is_staked: true }),
        r is Err ==> *final(info) == *old(info),
{
    if info.is_staked {
        return Err(ErrorCode::AlreadyStaked);
    }
    if amount == 0 {
        return Err(ErrorCode::InvalidAmount);
    }
    let deposit = match scaled_amount(amount, decimals) {
        Some(d) => d,
        None => return Err(ErrorCode::Overflow),
    };
    let begun = info.begin_stake(now);
    assert(begun is Ok);
    Ok(deposit)
}

/// Decides an unstake at slot `now`: checks the record, marks it unstaked,
/// and returns the reward in base units for the slots that passed. On error
/// the record is unchanged.
pub fn plan_unstake(info: &mut StakeInfo, decimals: u8, now: u64) -> (r: Result<u64, ErrorCode>)
    ensures
        !old(info).is_staked ==> r == Err::<u64, ErrorCode>(ErrorCode::NotStaked),
        old(info).is_staked && now < old(info).stake_at_slot ==> r == Err::<u64, ErrorCode>(
            ErrorCode::ClockMovedBackward,
        ),
        old(info).is_staked && now >= old(info).stake_at_slot && reward(
            (now - old(info).stake_at_slot) as nat,
            decimals as nat,
        ) > u64::MAX ==> r == Err::<u64, ErrorCode>(ErrorCode::Overflow),
        old(info).is_staked && now >= old(info).stake_at_slot && reward(
            (now - old(info).stake_at_slot) as nat,
            decimals as nat,
        ) <= u64::MAX ==> r == Ok::<u64, ErrorCode>(
            reward((now - old(info).stake_at_slot) as nat, decimals as nat) as u64,
        ) && *final(info) == (StakeInfo { stake_at_slot: now, is_staked: false }),
        r is Err ==> *final(info) == *old(info),
{
    if !info.is_staked {
        return Err(ErrorCode::NotStaked);
    }
    if now < info.stake_at_slot {
        return Err(ErrorCode::ClockMovedBackward);
    }
    let payout = match scaled_amount(now - info.stake_at_slot, decimals) {
        Some(p) => p,
        None => return Err(ErrorCode::Overflow),
    };
    let ended = info.end_stake(now);
    assert(ended is Ok);
    Ok(payout)
}

/// Stakes `amount` whole tokens at slot `now`: marks the record staked and
/// moves `amount * 10^decimals` base units into custody. On any error no
/// account changes.
pub fn stake(ctx: &mut Stake, amount: u64, now: u64) -> (r: Result<(), ErrorCode>)
    ensures
        match stake_outcome(*old(ctx), amount, now) {
            Ok(next) => r is Ok && *final(ctx) == next,
            Err(e) => r == Err::<(), ErrorCode>(e) && *final(ctx) == *old(ctx),
        },
{
    let mut info = ctx.stake_info;
    let deposit = match plan_stake(&mut info, amount, ctx.mint_decimals, now) {
        Ok(d) => d,
        Err(e) => return Err(e),
    };
    match transfer(&mut ctx.staker_token_account, &mut ctx.staker_stake_token_account, deposit) {
        Ok(()) => {},
        Err(e) => return Err(e),
    }
    ctx.stake_info = info;
    Ok(())
}

/// Unstakes at slot `now`: pays one whole token per elapsed slot from the
/// vault, then returns the whole custody balance, and marks the record
/// unstaked. On any error no account changes.
pub fn unstake(ctx: &mut Unstake, now: u64) -> (r: Result<(), ErrorCode>)
    ensures
        match unstake_outcome(*old(ctx), now) {
            Ok(next) => r is Ok && *final(ctx) == next,
            Err(e) => r == Err::<(), ErrorCode>(e) && *final(ctx) == *old(ctx),
        },
{
    let mut info = ctx.stake_info;
    let payout = match plan_unstake(&mut info, ctx.mint_decimals, now) {
        Ok(p) => p,
        Err(e) => return Err(e),
    };
    if ctx.stake_pool_token_account.amount < payout {
        return Err(ErrorCode::InsufficientFunds);
    }
    let principal = ctx.staker_stake_token_account.amount;
    if ctx.staker_token_account.amount > u64::MAX - payout
        || ctx.staker_token_account.amount + payout > u64::MAX - principal {
        return Err(ErrorCode::Overflow);
    }
    match transfer(&mut ctx.stake_pool_token_account, &mut ctx.staker_token_account, payout) {
        Ok(()) => {},
        Err(e) => return Err(e),
    }
    match transfer(&mut ctx.staker_stake_token_account, &mut ctx.staker_token_account, principal) {
        Ok(()) => {},
        Err(e) => return Err(e),
    }
    ctx.stake_info = info;
    Ok(())
}

} // verus!

use vstd::prelude::*;
use crate::amount::{lemma_pow10_monotone, pow10, scaled};
use crate::error::ErrorCode;
use crate::program::{reward, stake_outcome, unstake_outcome, Stake, Unstake};
use crate::token::TokenAccount;

verus! {

/// The accounts that `unstake` sees right after a stake: the participant's
/// record and accounts as `stake` left them, and the pool's vault.
pub open spec fn unstake_accounts(s: Stake, vault: TokenAccount) -> Unstake {
    Unstake {
        stake_info: s.stake_info,
        staker_stake_token_account: s.staker_stake_token_account,
        staker_token_account: s.staker_token_account,
        stake_pool_token_account: vault,
        mint_decimals: s.mint_decimals,
    }
}

/// Once a stake has succeeded, a second stake (of any amount, at any slot)
/// fails with `AlreadyStaked`.
pub proof fn lemma_stake_twice(ctx: Stake, first: u64, t1: u64, second: u64, t2: u64)
    requires
        stake_outcome(ctx, first, t1) is Ok,
    ensures
        stake_outcome(stake_outcome(ctx, first, t1)->Ok_0, second, t2) == Err::<Stake, ErrorCode>(
            ErrorCode::AlreadyStaked,
        ),
{
}

/// Unstaking a record that is not staked (a fresh one, or one already
/// unstaked) fails with `NotStaked`.
pub proof fn lemma_unstake_needs_stake(ctx: Unstake, now: u64)
    requires
        !ctx.stake_info.is_staked,
    ensures
        unstake_outcome(ctx, now) == Err::<Unstake, ErrorCode>(ErrorCode::NotStaked),
{
}

/// After a successful unstake, a second unstake fails with `NotStaked`.
pub proof fn lemma_unstake_twice(ctx: Unstake, t1: u64, t2: u64)
    requires
        unstake_outcome(ctx, t1) is Ok,
    ensures
        unstake_outcome(unstake_outcome(ctx, t1)->Ok_0, t2) == Err::<Unstake, ErrorCode>(
            ErrorCode::NotStaked,
        ),
{
}

/// Staking zero tokens on an unstaked record fails with `InvalidAmount`.
pub proof fn lemma_stake_zero(ctx: Stake, now: u64)
    requires
        !ctx.stake_info.is_staked,
    ensures
        stake_outcome(ctx, 0, now) == Err::<Stake, ErrorCode>(ErrorCode::InvalidAmount),
{
}

/// Staking and then unstaking at the same slot succeeds, pays no reward,
/// leaves the vault untouched, empties custody, and gives the participant back
/// exactly the deposited base units, when custody was empty before the stake.
pub proof fn lemma_round_trip(ctx: Stake, vault: TokenAccount, amount: u64, now: u64)
    requires
        stake_outcome(ctx, amount, now) is Ok,
        ctx.staker_stake_token_account.amount == 0,
    ensures
        ({
            let staked = stake_outcome(ctx, amount, now)->Ok_0;
            let deposit = scaled(amount as nat, ctx.mint_decimals as nat);
            let after = unstake_outcome(unstake_accounts(staked, vault), now);
            &&& reward(0, ctx.mint_decimals as nat) == 0
            &&& staked.staker_stake_token_account.amount == deposit
            &&& after is Ok
            &&& after->Ok_0.stake_pool_token_account == vault
            &&& after->Ok_0.staker_stake_token_account.amount == 0
            &&& after->Ok_0.staker_token_account.amount == staked.staker_token_account.amount
                + deposit
            &&& after->Ok_0.staker_token_account == ctx.staker_token_account
            &&& !after->Ok_0.stake_info.is_staked
        }),
{
}

/// A successful unstake leaves the record unstaked with no principal in
/// custody, and the vault pays exactly the reward for the elapsed slots.
pub proof fn lemma_unstake_settles(ctx: Unstake, now: u64)
    requires
        unstake_outcome(ctx, now) is Ok,
    ensures
        ({
            let next = unstake_outcome(ctx, now)->Ok_0;
            let paid = reward((now - ctx.stake_info.stake_at_slot) as nat, ctx.mint_decimals as nat);
            &&& !next.stake_info.is_staked
            &&& next.staker_stake_token_account.amount == 0
            &&& next.stake_pool_token_account.amount == ctx.stake_pool_token_account.amount - paid
            &&& next.staker_token_account.amount == ctx.staker_token_account.amount + paid
                + ctx.staker_stake_token_account.amount
        }),
{
}

/// A successful stake only moves tokens: the participant's balance and the
/// custody balance keep their sum.
pub proof fn lemma_stake_conserves(ctx: Stake, amount: u64, now: u64)
    requires
        stake_outcome(ctx, amount, now) is Ok,
    ensures
        ({
            let next = stake_outcome(ctx, amount, now)->Ok_0;
            next.staker_token_account.amount + next.staker_stake_token_account.amount
                == ctx.staker_token_account.amount + ctx.staker_stake_token_account.amount
        }),
{
}

/// The reward is linear in the elapsed slots and strictly increasing.
pub proof fn lemma_reward_monotonic(t1: nat, t2: nat, decimals: nat)
    requires
        t1 < t2,
    ensures
        reward(t1, decimals) == t1 * pow10(decimals),
        reward(t2, decimals) == t2 * pow10(decimals),
        reward(t1, decimals) < reward(t2, decimals),
{
    let p = pow10(decimals);
    lemma_pow10_monotone(0, decimals);
    assert(t1 * p < t2 * p) by (nonlinear_arith)
        requires
            t1 < t2,
            1 <= p,
    ;
}

} // verus!

use vstd::prelude::*;
use crate::error::ErrorCode;

verus! {

/// The balance of a token account, in base units.
#[derive(Clone, Copy, Debug, PartialEq, Eq, Structural)]
pub struct TokenAccount {
    pub amount: u64,
}

/// What moving `amount` base units from `from` to `to` yields: the two new
/// balances, or the reason the move is refused.
pub open spec fn transfer_outcome(from: TokenAccount, to: TokenAccount, amount: nat) -> Result<
    (TokenAccount, TokenAccount),
    ErrorCode,
> {
    if from.amount < amount {
        Err(ErrorCode::InsufficientFunds)
    } else if to.amount + amount > u64::MAX {
        Err(ErrorCode::Overflow)
    } else {
        Ok(
            (
                TokenAccount { amount: (from.amount - amount) as u64 },
                TokenAccount { amount: (to.amount + amount) as u64 },
            ),
        )
    }
}

impl TokenAccount {
    /// An account with the given balance.
    pub fn new(amount: u64) -> (r: TokenAccount)
        ensures
            r.amount == amount,
    {
        TokenAccount { amount }
    }
}

/// Moves `amount` base units from `from` to `to`, atomically: on failure
/// neither balance changes.
pub fn transfer(from: &mut TokenAccount, to: &mut TokenAccount, amount: u64) -> (r: Result<
    (),
    ErrorCode,
>)
    ensures
        match transfer_outcome(*old(from), *old(to), amount as nat) {
            Ok((f, t)) => r is Ok && *final(from) == f && *final(to) == t,
            Err(e) => r == Err::<(), ErrorCode>(e) && *final(from) == *old(from) && *final(to)
                == *old(to),
        },
{
    if from.amount < amount {
        return Err(ErrorCode::InsufficientFunds);
    }
    if to.amount > u64::MAX - amount {
        return Err(ErrorCode::Overflow);
    }
    from.amount = from.amount - amount;
    to.amount = to.amount + amount;
    Ok(())
}

} // verus!

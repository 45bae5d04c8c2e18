use vstd::prelude::*;

verus! {

/// Every way in which an instruction of the stake program can fail.
#[derive(Clone, Copy, Debug, PartialEq, Eq, Structural)]
pub enum ErrorCode {
    /// `stake` was called while the participant's tokens are already staked.
    AlreadyStaked,
    /// `unstake` was called while nothing is staked.
    NotStaked,
    /// `stake` was called with an amount of zero.
    InvalidAmount,
    /// Scaling an amount to base units, or crediting a balance, exceeds `u64`.
    Overflow,
    /// The source of a transfer holds less than the amount to move.
    InsufficientFunds,
    /// The clock reads a slot earlier than the one at which staking began.
    ClockMovedBackward,
}

impl ErrorCode {
    /// The message shown to the user for this error.
    pub fn message(&self) -> (r: &'static str)
        ensures
            *self == ErrorCode::AlreadyStaked ==> r@ == "tokens already staked"@,
            *self == ErrorCode::NotStaked ==> r@ == "tokens not staked yet"@,
            *self == ErrorCode::InvalidAmount ==> r@ == "no tokens to stake"@,
            *self == ErrorCode::Overflow ==> r@ == "arithmetic overflow"@,
            *self == ErrorCode::InsufficientFunds ==> r@ == "insufficient funds"@,
            *self == ErrorCode::ClockMovedBackward ==> r@ == "clock moved backward"@,
    {
        match self {
            ErrorCode::AlreadyStaked => "tokens already staked",
            ErrorCode::NotStaked => "tokens not staked yet",
            ErrorCode::InvalidAmount => "no tokens to stake",
            ErrorCode::Overflow => "arithmetic overflow",
            ErrorCode::InsufficientFunds => "insufficient funds",
            ErrorCode::ClockMovedBackward => "clock moved backward",
        }
    }
}

} // verus!

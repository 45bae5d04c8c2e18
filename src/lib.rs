//! Single-pool token staking: a per-participant stake record, the reward
//! arithmetic, and the balance movements of `stake` and `unstake`, all
//! verified against exact contracts.

pub mod amount;
pub mod error;
pub mod laws;
pub mod program;
pub mod record;
pub mod token;

pub use amount::scaled_amount;
pub use error::ErrorCode;
pub use program::{init_stakepool, plan_stake, plan_unstake, stake, unstake, Stake, StakePool, Unstake};
pub use record::StakeInfo;
pub use token::{transfer, TokenAccount};

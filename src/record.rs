use vstd::prelude::*;
use crate::error::ErrorCode;

verus! {

/// A participant's stake record: whether principal is locked, and the slot at
/// which the last stake (or unstake) happened.
#[derive(Clone, Copy, Debug, PartialEq, Eq, Structural)]
pub struct StakeInfo {
    pub stake_at_slot: u64,
    pub is_staked: bool,
}

impl StakeInfo {
    /// The record a participant gets on first use: nothing staked, slot zero.
    pub fn new() -> (r: StakeInfo)
        ensures
            r == (StakeInfo { stake_at_slot: 0, is_staked: false }),
    {
        StakeInfo { stake_at_slot: 0, is_staked: false }
    }

    /// Moves the record from unstaked to staked, recording `now` as the start.
    pub fn begin_stake(&mut self, now: u64) -> (r: Result<(), ErrorCode>)
        ensures
            old(self).is_staked ==> r == Err::<(), ErrorCode>(ErrorCode::AlreadyStaked)
                && *final(self) == *old(self),
            !old(self).is_staked ==> r is Ok
                && *final(self) == (StakeInfo { stake_at_slot: now, is_staked: true }),
    {
        if self.is_staked {
            return Err(ErrorCode::AlreadyStaked);
        }
        self.is_staked = true;
        self.stake_at_slot = now;
        Ok(())
    }

    /// Moves the record from staked to unstaked and returns the number of
    /// slots that passed since staking began.
    pub fn end_stake(&mut self, now: u64) -> (r: Result<u64, ErrorCode>)
        ensures
            !old(self).is_staked ==> r == Err::<u64, ErrorCode>(ErrorCode::NotStaked)
                && *final(self) == *old(self),
            old(self).is_staked && now < old(self).stake_at_slot
                ==> r == Err::<u64, ErrorCode>(ErrorCode::ClockMovedBackward)
                && *final(self) == *old(self),
            old(self).is_staked && now >= old(self).stake_at_slot ==> r == Ok::<u64, ErrorCode>(
                (now - old(self).stake_at_slot) as u64,
            ) && *final(self) == (StakeInfo { stake_at_slot: now, is_staked: false }),
    {
        if !self.is_staked {
            return Err(ErrorCode::NotStaked);
        }
        if now < self.stake_at_slot {
            return Err(ErrorCode::ClockMovedBackward);
        }
        let elapsed = now - self.stake_at_slot;
        self.is_staked = false;
        self.stake_at_slot = now;
        Ok(elapsed)
    }
}

} // verus!

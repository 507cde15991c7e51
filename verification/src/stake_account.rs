//! Per-subject metadata: owner, current delegate, and the custody and
//! vesting balances last recorded toward that delegate's running total.

use vstd::prelude::*;
use crate::ids::AccountId;

verus! {

/// The metadata kept for each staking subject.
#[derive(Clone, Copy, PartialEq, Eq, Structural, Debug)]
pub struct StakeAccountMetadata {
    pub recorded_balance: u64,
    pub recorded_vesting_balance: u64,
    pub owner: AccountId,
    pub delegate: AccountId,
    pub stake_account_checkpoints_last_index: u16,
}

/// A change of the custody balance recorded for a subject.
#[derive(Clone, Copy, PartialEq, Eq, Structural, Debug)]
pub struct RecordedBalanceChanged {
    pub owner: AccountId,
    pub previous_balance: u64,
    pub new_balance: u64,
}

/// A change of the vesting balance recorded for a subject.
#[derive(Clone, Copy, PartialEq, Eq, Structural, Debug)]
pub struct RecordedVestingBalanceChanged {
    pub owner: AccountId,
    pub previous_balance: u64,
    pub new_balance: u64,
}

impl StakeAccountMetadata {
    /// Fresh metadata with zeroed balances.
    pub fn initialize(
        owner: AccountId,
        delegate: AccountId,
        stake_account_checkpoints_last: u16,
    ) -> (r: StakeAccountMetadata)
        ensures
            r.owner == owner,
            r.delegate == delegate,
            r.recorded_balance == 0,
            r.recorded_vesting_balance == 0,
            r.stake_account_checkpoints_last_index == stake_account_checkpoints_last,
    {
        StakeAccountMetadata {
            recorded_balance: 0,
            recorded_vesting_balance: 0,
            owner,
            delegate,
            stake_account_checkpoints_last_index: stake_account_checkpoints_last,
        }
    }

    /// Replaces the recorded custody balance, reporting old and new.
    pub fn update_recorded_balance(&mut self, new_recorded_balance: u64) -> (r:
        RecordedBalanceChanged)
        ensures
            *final(self) == (StakeAccountMetadata {
                recorded_balance: new_recorded_balance,
                ..*old(self)
            }),
            r == (RecordedBalanceChanged {
                owner: old(self).owner,
                previous_balance: old(self).recorded_balance,
                new_balance: new_recorded_balance,
            }),
    {
        let r = RecordedBalanceChanged {
            owner: self.owner,
            previous_balance: self.recorded_balance,
            new_balance: new_recorded_balance,
        };
        self.recorded_balance = new_recorded_balance;
        r
    }

    /// Replaces the recorded vesting balance, reporting old and new.
    pub fn update_recorded_vesting_balance(&mut self, new_recorded_vesting_balance: u64) -> (r:
        RecordedVestingBalanceChanged)
        ensures
            *final(self) == (StakeAccountMetadata {
                recorded_vesting_balance: new_recorded_vesting_balance,
                ..*old(self)
            }),
            r == (RecordedVestingBalanceChanged {
                owner: old(self).owner,
                previous_balance: old(self).recorded_vesting_balance,
                new_balance: new_recorded_vesting_balance,
            }),
    {
        let r = RecordedVestingBalanceChanged {
            owner: self.owner,
            previous_balance: self.recorded_vesting_balance,
            new_balance: new_recorded_vesting_balance,
        };
        self.recorded_vesting_balance = new_recorded_vesting_balance;
        r
    }
}

} // verus!

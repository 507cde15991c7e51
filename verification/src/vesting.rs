//! Vesting bookkeeping: the per-mint vesting configuration, individual
//! vesting records, and the per-vester balance that can be counted toward
//! a subject's voting power once linked.

use vstd::prelude::*;
use crate::error::VestingError;
use crate::ids::AccountId;

verus! {

/// The per-mint vesting configuration.
#[derive(Clone, Copy, PartialEq, Eq, Structural, Debug)]
pub struct VestingConfig {
    pub mint: AccountId,
    pub recovery: AccountId,
    pub seed: u64,
    pub vested: u64,
    pub finalized: bool,
}

/// One vesting grant: an amount claimable at its maturation time.
#[derive(Clone, Copy, PartialEq, Eq, Structural, Debug)]
pub struct Vesting {
    pub vester_ta: AccountId,
    pub config: AccountId,
    pub amount: u64,
    pub maturation: i64,
}

/// A vester's total vesting balance, and the subject it is counted toward
/// once the vester delegates.
#[derive(Clone, Copy, PartialEq, Eq, Structural, Debug)]
pub struct VestingBalance {
    pub vester: AccountId,
    pub total_vesting_balance: u64,
    pub delegated_to_subject: Option<usize>,
}

/// A fresh vesting configuration: nothing vested, not finalized.
pub fn initialize_vesting_config(mint: AccountId, recovery: AccountId, seed: u64) -> (r:
    VestingConfig)
    ensures
        r == (VestingConfig { mint, recovery, seed, vested: 0, finalized: false }),
{
    VestingConfig { mint, recovery, seed, vested: 0, finalized: false }
}

/// Freezes the configuration once the vault covers every vested token;
/// afterwards no grant may be created or cancelled.
pub fn finalize_vesting_config(config: &mut VestingConfig, vault_amount: u64) -> (r: Result<
    (),
    VestingError,
>)
    ensures
        match r {
            Ok(()) => {
                &&& vault_amount >= old(config).vested
                &&& *final(config) == (VestingConfig { finalized: true, ..*old(config) })
            },
            Err(e) => {
                &&& e == VestingError::VestedBalanceMismatch
                &&& vault_amount < old(config).vested
                &&& *final(config) == *old(config)
            },
        },
{
    if vault_amount < config.vested {
        return Err(VestingError::VestedBalanceMismatch);
    }
    config.finalized = true;
    Ok(())
}

/// The surplus the admin may recover: whatever the vault holds beyond the
/// total vested amount, refused when there is none.
pub fn withdraw_surplus(config: &VestingConfig, vault_amount: u64) -> (r: Result<
    u64,
    VestingError,
>)
    ensures
        match r {
            Ok(amount) => {
                &&& vault_amount > config.vested
                &&& amount == vault_amount - config.vested
            },
            Err(e) => {
                &&& e == VestingError::NotInSurplus
                &&& vault_amount <= config.vested
            },
        },
{
    if vault_amount <= config.vested {
        return Err(VestingError::NotInSurplus);
    }
    Ok(vault_amount - config.vested)
}

} // verus!

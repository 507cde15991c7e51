//! The program-wide configuration: authorities, the voting token mint, and
//! the per-store checkpoint capacity, with its creation-time checks.

use vstd::prelude::*;
use crate::error::ErrorCode;
use crate::ids::AccountId;
use crate::vote_weight_window_lengths::MAX_VOTE_WEIGHT_WINDOW_LENGTH;

verus! {

/// One checkpoint store may hold at most this many entries: a 10 MB
/// account holds a 48-byte header and 16 bytes per checkpoint.
pub const MAX_CHECKPOINT_ACCOUNT_LIMIT: u32 = 655_000;

/// The program-wide configuration record.
#[derive(Clone, Copy, PartialEq, Eq, Structural, Debug)]
pub struct GlobalConfig {
    pub max_checkpoints_account_limit: u32,
    pub governance_authority: AccountId,
    pub voting_token_mint: AccountId,
    pub vesting_admin: AccountId,
    pub pending_governance_authority: Option<AccountId>,
    pub pending_vesting_admin: Option<AccountId>,
}

/// What the creator of the configuration supplies.
#[derive(Clone, Copy, PartialEq, Eq, Structural, Debug)]
pub struct InitConfigArgs {
    pub max_checkpoints_account_limit: u32,
    pub governance_authority: AccountId,
    pub voting_token_mint: AccountId,
    pub vesting_admin: AccountId,
}

/// Builds the global configuration: authorities must be set, and the
/// checkpoint capacity must be above the longest window yet below the
/// 10 MB account ceiling.
pub fn init_config(args: InitConfigArgs) -> (r: Result<GlobalConfig, ErrorCode>)
    ensures
        match r {
            Ok(config) => {
                &&& args.governance_authority != AccountId::spec_zeroed()
                &&& args.vesting_admin != AccountId::spec_zeroed()
                &&& args.max_checkpoints_account_limit <= MAX_CHECKPOINT_ACCOUNT_LIMIT
                &&& args.max_checkpoints_account_limit > MAX_VOTE_WEIGHT_WINDOW_LENGTH
                &&& config == (GlobalConfig {
                    max_checkpoints_account_limit: args.max_checkpoints_account_limit,
                    governance_authority: args.governance_authority,
                    voting_token_mint: args.voting_token_mint,
                    vesting_admin: args.vesting_admin,
                    pending_governance_authority: None::<AccountId>,
                    pending_vesting_admin: None::<AccountId>,
                })
            },
            Err(e) => {
                if args.governance_authority == AccountId::spec_zeroed() || args.vesting_admin
                    == AccountId::spec_zeroed() {
                    e == ErrorCode::InvalidAuthority
                } else {
                    e == ErrorCode::InvalidCheckpointAccountLimit
                        && (args.max_checkpoints_account_limit > MAX_CHECKPOINT_ACCOUNT_LIMIT
                        || args.max_checkpoints_account_limit <= MAX_VOTE_WEIGHT_WINDOW_LENGTH)
                }
            },
        },
{
    let zero = AccountId::zeroed();
    if args.governance_authority == zero || args.vesting_admin == zero {
        return Err(ErrorCode::InvalidAuthority);
    }
    if args.max_checkpoints_account_limit > MAX_CHECKPOINT_ACCOUNT_LIMIT {
        return Err(ErrorCode::InvalidCheckpointAccountLimit);
    }
    if args.max_checkpoints_account_limit as u64 <= MAX_VOTE_WEIGHT_WINDOW_LENGTH {
        return Err(ErrorCode::InvalidCheckpointAccountLimit);
    }
    Ok(
        GlobalConfig {
            max_checkpoints_account_limit: args.max_checkpoints_account_limit,
            governance_authority: args.governance_authority,
            voting_token_mint: args.voting_token_mint,
            vesting_admin: args.vesting_admin,
            pending_governance_authority: None,
            pending_vesting_admin: None,
        },
    )
}

/// Stages a new governance authority, to be claimed by its key.
pub fn update_governance_authority(config: &mut GlobalConfig, new_authority: AccountId)
    ensures
        *final(config) == (GlobalConfig {
            pending_governance_authority: Some(new_authority),
            ..*old(config)
        }),
{
    config.pending_governance_authority = Some(new_authority);
}

/// Completes a governance-authority handover: the claimant must be the
/// staged authority, or already hold the role.
pub fn claim_governance_authority(config: &mut GlobalConfig, new_authority: AccountId) -> (r:
    Result<(), ErrorCode>)
    ensures
        match r {
            Ok(()) => {
                &&& old(config).pending_governance_authority == Some(new_authority) || old(
                    config,
                ).governance_authority == new_authority
                &&& *final(config) == (GlobalConfig {
                    governance_authority: new_authority,
                    pending_governance_authority: None::<AccountId>,
                    ..*old(config)
                })
            },
            Err(e) => {
                &&& e == ErrorCode::InvalidPendingAuthority
                &&& old(config).pending_governance_authority != Some(new_authority)
                &&& old(config).governance_authority != new_authority
                &&& *final(config) == *old(config)
            },
        },
{
    let staged = match config.pending_governance_authority {
        Some(a) => a == new_authority,
        None => false,
    };
    if !(staged || config.governance_authority == new_authority) {
        return Err(ErrorCode::InvalidPendingAuthority);
    }
    config.pending_governance_authority = None;
    config.governance_authority = new_authority;
    Ok(())
}

/// Stages a new vesting admin, to be claimed by its key.
pub fn update_vesting_admin(config: &mut GlobalConfig, new_vesting_admin: AccountId)
    ensures
        *final(config) == (GlobalConfig {
            pending_vesting_admin: Some(new_vesting_admin),
            ..*old(config)
        }),
{
    config.pending_vesting_admin = Some(new_vesting_admin);
}

/// Completes a vesting-admin handover: the claimant must be the staged
/// admin, or already hold the role.
pub fn claim_vesting_admin(config: &mut GlobalConfig, new_vesting_admin: AccountId) -> (r: Result<
    (),
    ErrorCode,
>)
    ensures
        match r {
            Ok(()) => {
                &&& old(config).pending_vesting_admin == Some(new_vesting_admin) || old(
                    config,
                ).vesting_admin == new_vesting_admin
                &&& *final(config) == (GlobalConfig {
                    vesting_admin: new_vesting_admin,
                    pending_vesting_admin: None::<AccountId>,
                    ..*old(config)
                })
            },
            Err(e) => {
                &&& e == ErrorCode::InvalidPendingAuthority
                &&& old(config).pending_vesting_admin != Some(new_vesting_admin)
                &&& old(config).vesting_admin != new_vesting_admin
                &&& *final(config) == *old(config)
            },
        },
{
    let staged = match config.pending_vesting_admin {
        Some(a) => a == new_vesting_admin,
        None => false,
    };
    if !(staged || config.vesting_admin == new_vesting_admin) {
        return Err(ErrorCode::InvalidPendingAuthority);
    }
    config.pending_vesting_admin = None;
    config.vesting_admin = new_vesting_admin;
    Ok(())
}

} // verus!

use staking::delegation::DelegationEngine;
use staking::error::{ErrorCode, StakingError, VestingError};
use staking::ids::AccountId;
use staking::vesting::{initialize_vesting_config, finalize_vesting_config, withdraw_surplus};

fn acct(n: u64) -> AccountId {
    AccountId { part1: n, part2: 0, part3: 0, part4: 0 }
}

const MAX: u32 = 1000;

#[test]
fn end_to_end_delegation_scenario() {
    // Subject A starts with custody 0, then deposits 1000 and delegates to
    // itself at t=10; re-delegating to B at t=20 moves the whole total.
    let mut engine = DelegationEngine::new();
    let a = engine.create_stake_account(acct(1)).unwrap();
    let b = engine.create_stake_account(acct(2)).unwrap();

    engine.delegate(a, a, 1000, None, None, 10, MAX).unwrap();
    assert_eq!(engine.stores[a].next_index(), 1);
    assert_eq!(engine.stores[a].checkpoints[0].timestamp, 10);
    assert_eq!(engine.stores[a].checkpoints[0].value, 1000);

    engine.delegate(a, b, 1000, None, None, 20, MAX).unwrap();
    // A's own store received a Subtract(1000) at t=20.
    assert_eq!(engine.stores[a].latest(), Some(0));
    assert_eq!(engine.stores[a].checkpoints[1].timestamp, 20);
    // B's store received (20, 1000).
    assert_eq!(engine.stores[b].next_index(), 1);
    assert_eq!(engine.stores[b].checkpoints[0].timestamp, 20);
    assert_eq!(engine.stores[b].checkpoints[0].value, 1000);
    // Historical lookups on B's store.
    assert!(engine.stores[b].find_checkpoint_le(15).is_none());
    let (_, cp) = engine.stores[b].find_checkpoint_le(25).unwrap();
    assert_eq!((cp.timestamp, cp.value), (20, 1000));
}

#[test]
fn conservation_across_many_operations() {
    // After an arbitrary mix of operations, each delegate's latest
    // checkpoint equals the sum of recorded balances delegating to it.
    let mut engine = DelegationEngine::new();
    let a = engine.create_stake_account(acct(1)).unwrap();
    let b = engine.create_stake_account(acct(2)).unwrap();
    let c = engine.create_stake_account(acct(3)).unwrap();
    engine.delegate(a, b, 500, None, None, 1, MAX).unwrap();
    engine.delegate(c, b, 200, None, None, 2, MAX).unwrap();
    engine.delegate(b, b, 50, None, None, 3, MAX).unwrap();
    engine.delegate(a, c, 500, None, None, 4, MAX).unwrap();
    engine
        .withdraw_tokens(a, 100, acct(1), acct(1), 400, 5, MAX)
        .unwrap();
    for j in [a, b, c] {
        let latest = engine.stores[j].latest().unwrap_or(0);
        let owner = engine.subjects[j].owner;
        let sum: u64 = engine
            .subjects
            .iter()
            .filter(|s| s.delegate == owner)
            .map(|s| s.recorded_balance + s.recorded_vesting_balance)
            .sum();
        assert_eq!(latest, sum);
    }
}

#[test]
fn delegate_same_delegate_pushes_delta() {
    let mut engine = DelegationEngine::new();
    let a = engine.create_stake_account(acct(1)).unwrap();
    engine.delegate(a, a, 300, None, None, 1, MAX).unwrap();
    // Custody fell to 120 since the last sync: one Subtract(180) delta.
    engine.delegate(a, a, 120, None, None, 2, MAX).unwrap();
    assert_eq!(engine.stores[a].latest(), Some(120));
    assert_eq!(engine.stores[a].next_index(), 2);
}

#[test]
fn duplicate_owner_is_refused() {
    let mut engine = DelegationEngine::new();
    engine.create_stake_account(acct(1)).unwrap();
    let err = engine.create_stake_account(acct(1)).unwrap_err();
    assert_eq!(err, ErrorCode::Other);
}

#[test]
fn withdraw_checks_destination_and_amount() {
    let mut engine = DelegationEngine::new();
    let a = engine.create_stake_account(acct(1)).unwrap();
    engine.delegate(a, a, 100, None, None, 1, MAX).unwrap();
    let err = engine
        .withdraw_tokens(a, 0, acct(1), acct(1), 100, 2, MAX)
        .unwrap_err();
    assert_eq!(err, StakingError::Code(ErrorCode::ZeroWithdrawal));
    let err = engine
        .withdraw_tokens(a, 10, acct(9), acct(1), 90, 2, MAX)
        .unwrap_err();
    assert_eq!(err, StakingError::Code(ErrorCode::WithdrawToUnauthorizedAccount));
    let ev = engine
        .withdraw_tokens(a, 10, acct(1), acct(1), 90, 2, MAX)
        .unwrap();
    assert_eq!(ev.previous_balance, 100);
    assert_eq!(ev.new_balance, 90);
    assert_eq!(engine.stores[a].latest(), Some(90));
}

#[test]
fn full_store_refuses_more_checkpoints() {
    let mut engine = DelegationEngine::new();
    let a = engine.create_stake_account(acct(1)).unwrap();
    // With a capacity of one, the first delegation fills A's store.
    engine.delegate(a, a, 10, None, None, 1, 1).unwrap();
    let err = engine.delegate(a, a, 20, None, None, 2, 1).unwrap_err();
    assert_eq!(err, StakingError::Code(ErrorCode::TooManyCheckpoints));
}

#[test]
fn segment_rollover_keeps_latest() {
    let mut engine = DelegationEngine::new();
    let a = engine.create_stake_account(acct(1)).unwrap();
    engine.delegate(a, a, 10, None, None, 1, MAX).unwrap();
    engine.delegate(a, a, 25, None, None, 2, MAX).unwrap();
    assert_eq!(engine.subjects[a].stake_account_checkpoints_last_index, 0);
    engine.create_checkpoints(a).unwrap();
    assert_eq!(engine.subjects[a].stake_account_checkpoints_last_index, 1);
    assert_eq!(engine.stores[a].next_index(), 1);
    assert_eq!(engine.stores[a].checkpoints[0].timestamp, 2);
    assert_eq!(engine.stores[a].checkpoints[0].value, 25);
    // An empty store has no checkpoint to carry over.
    let b = engine.create_stake_account(acct(2)).unwrap();
    assert_eq!(engine.create_checkpoints(b).unwrap_err(), ErrorCode::CheckpointNotFound);
}

#[test]
fn vesting_resync_on_delegate() {
    let mut engine = DelegationEngine::new();
    let a = engine.create_stake_account(acct(1)).unwrap();
    let vb = engine.create_vesting_balance(acct(1));
    let mut config = initialize_vesting_config(acct(50), acct(51), 7);
    let vest = engine
        .create_vesting(vb, &mut config, acct(60), acct(1), 100, 250)
        .unwrap();
    assert_eq!(config.vested, 250);
    finalize_vesting_config(&mut config, 250).unwrap();

    // First delegation with a finalized vesting balance links it and
    // counts it toward the delegate.
    engine
        .delegate(a, a, 40, Some(&config), Some(vb), 5, MAX)
        .unwrap();
    assert_eq!(engine.subjects[a].recorded_vesting_balance, 250);
    assert_eq!(engine.stores[a].latest(), Some(290));

    // Claiming the matured grant removes it from the running total.
    let events = engine
        .claim_vesting(vb, &mut config, &vest, 100, 6, MAX)
        .unwrap();
    assert!(events.is_some());
    assert_eq!(engine.subjects[a].recorded_vesting_balance, 0);
    assert_eq!(engine.stores[a].latest(), Some(40));
    assert_eq!(config.vested, 0);
    assert_eq!(engine.vesting_balances[vb].total_vesting_balance, 0);
}

#[test]
fn claim_vesting_rejects_early_and_unfinalized() {
    let mut engine = DelegationEngine::new();
    let vb = engine.create_vesting_balance(acct(1));
    let mut config = initialize_vesting_config(acct(50), acct(51), 7);
    let vest = engine
        .create_vesting(vb, &mut config, acct(60), acct(1), 100, 30)
        .unwrap();
    let err = engine
        .claim_vesting(vb, &mut config, &vest, 100, 6, MAX)
        .unwrap_err();
    assert_eq!(err, StakingError::Vesting(VestingError::VestingUnfinalized));
    finalize_vesting_config(&mut config, 30).unwrap();
    let err = engine
        .claim_vesting(vb, &mut config, &vest, 99, 6, MAX)
        .unwrap_err();
    assert_eq!(err, StakingError::Vesting(VestingError::NotFullyVested));
    engine.claim_vesting(vb, &mut config, &vest, 100, 6, MAX).unwrap();
}

#[test]
fn transfer_vesting_moves_weight_between_delegates() {
    let mut engine = DelegationEngine::new();
    let a = engine.create_stake_account(acct(1)).unwrap();
    let b = engine.create_stake_account(acct(2)).unwrap();
    let vb_a = engine.create_vesting_balance(acct(1));
    let vb_b = engine.create_vesting_balance(acct(2));
    let mut config = initialize_vesting_config(acct(50), acct(51), 7);
    let vest = engine
        .create_vesting(vb_a, &mut config, acct(60), acct(1), 100, 80)
        .unwrap();
    finalize_vesting_config(&mut config, 80).unwrap();
    engine.delegate(a, a, 0, Some(&config), Some(vb_a), 1, MAX).unwrap();
    engine.delegate(b, b, 0, Some(&config), Some(vb_b), 1, MAX).unwrap();
    assert_eq!(engine.stores[a].latest(), Some(80));

    let mut new_vest = staking::vesting::Vesting {
        vester_ta: acct(2),
        config: acct(50),
        amount: 0,
        maturation: 100,
    };
    let ev = engine
        .transfer_vesting(vb_a, vb_b, &config, &vest, &mut new_vest, 2, MAX)
        .unwrap();
    assert!(ev.stake_account_metadata.is_some());
    assert!(ev.new_stake_account_metadata.is_some());
    assert_eq!(engine.stores[a].latest(), Some(0));
    assert_eq!(engine.stores[b].latest(), Some(80));
    assert_eq!(engine.vesting_balances[vb_a].total_vesting_balance, 0);
    assert_eq!(engine.vesting_balances[vb_b].total_vesting_balance, 80);
    assert_eq!(new_vest.amount, 80);

    // Transferring to oneself is refused.
    let err = engine
        .transfer_vesting(vb_b, vb_b, &config, &vest, &mut new_vest, 3, MAX)
        .unwrap_err();
    assert_eq!(err, StakingError::Vesting(VestingError::TransferVestToMyself));
}

#[test]
fn vesting_config_lifecycle() {
    let mut engine = DelegationEngine::new();
    let vb = engine.create_vesting_balance(acct(1));
    let mut config = initialize_vesting_config(acct(50), acct(51), 7);
    let vest = engine
        .create_vesting(vb, &mut config, acct(60), acct(1), 100, 40)
        .unwrap();
    // The vault must cover the vested amount before finalizing.
    assert_eq!(
        finalize_vesting_config(&mut config, 39).unwrap_err(),
        VestingError::VestedBalanceMismatch
    );
    // Cancelling works only while not finalized.
    engine.cancel_vesting(vb, &mut config, &vest).unwrap();
    assert_eq!(config.vested, 0);
    finalize_vesting_config(&mut config, 0).unwrap();
    let err = engine
        .create_vesting(vb, &mut config, acct(60), acct(1), 100, 1)
        .unwrap_err();
    assert_eq!(err, StakingError::Vesting(VestingError::VestingFinalized));
    // Surplus recovery.
    assert_eq!(withdraw_surplus(&config, 0).unwrap_err(), VestingError::NotInSurplus);
    assert_eq!(withdraw_surplus(&config, 25).unwrap(), 25);
}

#[test]
fn delegate_rejects_wrong_vesting_balance() {
    let mut engine = DelegationEngine::new();
    let a = engine.create_stake_account(acct(1)).unwrap();
    let vb = engine.create_vesting_balance(acct(9));
    let mut config = initialize_vesting_config(acct(50), acct(51), 7);
    finalize_vesting_config(&mut config, 0).unwrap();
    let err = engine
        .delegate(a, a, 0, Some(&config), Some(vb), 1, MAX)
        .unwrap_err();
    assert_eq!(err, StakingError::Vesting(VestingError::InvalidVestingBalancePDA));
}

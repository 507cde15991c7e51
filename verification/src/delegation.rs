//! The delegation engine: every subject's metadata and checkpoint store in
//! one place, so that moving voting power between delegates keeps one
//! ledger-wide conservation law — each delegate's latest checkpoint equals
//! the sum of the recorded balances of everyone delegating to it.

use vstd::prelude::*;
use crate::checkpoints::CheckpointData;
use crate::checkpoints::DelegateVotesChanged;
use crate::checkpoints::Operation;
use crate::checkpoints::latest_value;
use crate::checkpoints::push_timestamp_ok;
use crate::checkpoints::spec_push;
use crate::checkpoints::timestamps_sorted;
use crate::error::ErrorCode;
use crate::error::StakingError;
use crate::error::VestingError;
use crate::ids::AccountId;
use crate::stake_account::StakeAccountMetadata;
use crate::vesting::Vesting;
use crate::vesting::VestingBalance;
use crate::vesting::VestingConfig;

verus! {

/// A change of a subject's delegate.
#[derive(Clone, Copy, PartialEq, Eq, Structural, Debug)]
pub struct DelegateChanged {
    pub delegator: AccountId,
    pub from_delegate: AccountId,
    pub to_delegate: AccountId,
    pub total_delegated_votes: u64,
}

/// What one subject contributes to delegate `d`'s running total.
pub open spec fn contrib_if(s: StakeAccountMetadata, d: AccountId) -> int {
    if s.delegate == d {
        s.recorded_balance + s.recorded_vesting_balance
    } else {
        0
    }
}

/// The sum over all subjects of what each contributes to delegate `d`.
pub open spec fn sum_contrib(subjects: Seq<StakeAccountMetadata>, d: AccountId) -> int
    decreases subjects.len(),
{
    if subjects.len() == 0 {
        0
    } else {
        sum_contrib(subjects.drop_last(), d) + contrib_if(subjects.last(), d)
    }
}

pub proof fn lemma_sum_contrib_nonneg(subjects: Seq<StakeAccountMetadata>, d: AccountId)
    ensures
        sum_contrib(subjects, d) >= 0,
    decreases subjects.len(),
{
    if subjects.len() > 0 {
        lemma_sum_contrib_nonneg(subjects.drop_last(), d);
    }
}

/// Replacing one subject moves the sum by the difference of its
/// contributions.
pub proof fn lemma_sum_contrib_update(
    subjects: Seq<StakeAccountMetadata>,
    i: int,
    s: StakeAccountMetadata,
    d: AccountId,
)
    requires
        0 <= i < subjects.len(),
    ensures
        sum_contrib(subjects.update(i, s), d) == sum_contrib(subjects, d) - contrib_if(
            subjects[i],
            d,
        ) + contrib_if(s, d),
    decreases subjects.len(),
{
    if i == subjects.len() - 1 {
        assert(subjects.update(i, s).drop_last() =~= subjects.drop_last());
        assert(subjects.update(i, s).last() == s);
    } else {
        assert(subjects.update(i, s).drop_last() =~= subjects.drop_last().update(i, s));
        assert(subjects.update(i, s).last() == subjects.last());
        lemma_sum_contrib_update(subjects.drop_last(), i, s, d);
        assert(subjects.drop_last()[i] == subjects[i]);
    }
}

/// A delegator's own contribution never exceeds its delegate's sum.
pub proof fn lemma_sum_contrib_lower_bound(
    subjects: Seq<StakeAccountMetadata>,
    i: int,
    d: AccountId,
)
    requires
        0 <= i < subjects.len(),
        subjects[i].delegate == d,
    ensures
        sum_contrib(subjects, d) >= subjects[i].recorded_balance
            + subjects[i].recorded_vesting_balance,
    decreases subjects.len(),
{
    if i == subjects.len() - 1 {
        lemma_sum_contrib_nonneg(subjects.drop_last(), d);
    } else {
        lemma_sum_contrib_lower_bound(subjects.drop_last(), i, d);
        assert(subjects.drop_last()[i] == subjects[i]);
        assert(contrib_if(subjects.last(), d) >= 0);
    }
}

/// A delegate nobody points to accumulates nothing.
pub proof fn lemma_sum_contrib_absent(subjects: Seq<StakeAccountMetadata>, d: AccountId)
    requires
        forall|i: int| 0 <= i < subjects.len() ==> subjects[i].delegate != d,
    ensures
        sum_contrib(subjects, d) == 0,
    decreases subjects.len(),
{
    if subjects.len() > 0 {
        lemma_sum_contrib_absent(subjects.drop_last(), d);
    }
}

/// Appending a subject adds exactly its contribution.
pub proof fn lemma_sum_contrib_push(
    subjects: Seq<StakeAccountMetadata>,
    s: StakeAccountMetadata,
    d: AccountId,
)
    ensures
        sum_contrib(subjects.push(s), d) == sum_contrib(subjects, d) + contrib_if(s, d),
{
    assert(subjects.push(s).drop_last() =~= subjects);
    assert(subjects.push(s).last() == s);
}

/// Conservation: while the engine is well formed — and every operation
/// keeps it so — each delegate's latest checkpoint value equals the sum of
/// `recorded_balance + recorded_vesting_balance` over all subjects
/// currently delegating to it.
pub proof fn lemma_conservation(engine: &DelegationEngine, j: int)
    requires
        engine.wf(),
        0 <= j < engine.n(),
    ensures
        latest_value(engine.stores@[j].checkpoints@) as int == sum_contrib(
            engine.subjects@,
            engine.subjects@[j].owner,
        ),
{
}

/// What closing a vesting grant reported.
#[derive(Clone, Copy, PartialEq, Eq, Structural, Debug)]
pub struct CloseVestingEvents {
    pub recorded_vesting_balance_changed: crate::stake_account::RecordedVestingBalanceChanged,
    pub delegate_votes_changed: DelegateVotesChanged,
}

/// What one side of a vesting transfer reported.
#[derive(Clone, Copy, PartialEq, Eq, Structural, Debug)]
pub struct StakeAccountMetadataEvents {
    pub recorded_vesting_balance_changed: crate::stake_account::RecordedVestingBalanceChanged,
    pub delegate_votes_changed: Option<DelegateVotesChanged>,
}

/// What a vesting transfer reported for each side.
#[derive(Clone, Copy, PartialEq, Eq, Structural, Debug)]
pub struct TransferVestingEvents {
    pub stake_account_metadata: Option<StakeAccountMetadataEvents>,
    pub new_stake_account_metadata: Option<StakeAccountMetadataEvents>,
}

/// The delegation engine: subjects, the index of each subject's delegate,
/// one checkpoint store per subject, and the vesting balances that can be
/// linked to subjects.
#[derive(Debug)]
pub struct DelegationEngine {
    pub subjects: Vec<StakeAccountMetadata>,
    pub delegate_index: Vec<usize>,
    pub stores: Vec<CheckpointData>,
    pub vesting_balances: Vec<VestingBalance>,
}

impl DelegationEngine {
    /// The number of subjects.
    pub open spec fn n(&self) -> int {
        self.subjects@.len() as int
    }

    /// Shape invariants: one store and one delegate index per subject,
    /// stores owned by their subjects and sorted, delegate indices valid
    /// and matching the recorded delegate, owners distinct, and every
    /// linked vesting balance pointing at its vester's subject.
    pub open spec fn structural_wf(&self) -> bool {
        &&& self.delegate_index@.len() == self.subjects@.len()
        &&& self.stores@.len() == self.subjects@.len()
        &&& (forall|i: int|
            0 <= i < self.n() ==> (#[trigger] self.stores@[i]).owner == self.subjects@[i].owner)
        &&& (forall|i: int|
            0 <= i < self.n() ==> timestamps_sorted((#[trigger] self.stores@[i]).checkpoints@))
        &&& (forall|i: int|
            0 <= i < self.n() ==> (#[trigger] self.delegate_index@[i]) < self.n())
        &&& (forall|i: int|
            0 <= i < self.n() ==> self.subjects@[(#[trigger] self.delegate_index@[i]) as int].owner
                == self.subjects@[i].delegate)
        &&& (forall|i: int, j: int|
            0 <= i < j < self.n() ==> self.subjects@[i].owner != self.subjects@[j].owner)
        &&& (forall|v: int|
            0 <= v < self.vesting_balances@.len() ==> match (#[trigger] self.vesting_balances@[v]).delegated_to_subject {
                Some(s) => (s as int) < self.n() && self.subjects@[s as int].owner
                    == self.vesting_balances@[v].vester,
                None => true,
            })
    }

    /// The conservation law: every subject's store carries, as its latest
    /// value, the sum of `recorded_balance + recorded_vesting_balance`
    /// over all subjects currently delegating to it.
    pub open spec fn conserved(&self) -> bool {
        forall|j: int|
            0 <= j < self.n() ==> latest_value((#[trigger] self.stores@[j]).checkpoints@) as int
                == sum_contrib(self.subjects@, self.subjects@[j].owner)
    }

    pub open spec fn wf(&self) -> bool {
        self.structural_wf() && self.conserved()
    }

    /// An empty ledger.
    pub fn new() -> (r: DelegationEngine)
        ensures
            r.wf(),
            r.subjects@.len() == 0,
            r.vesting_balances@.len() == 0,
    {
        DelegationEngine {
            subjects: Vec::new(),
            delegate_index: Vec::new(),
            stores: Vec::new(),
            vesting_balances: Vec::new(),
        }
    }

    /// Creates a subject with an empty store and zeroed metadata,
    /// initially delegated to itself; an owner already present is refused.
    pub fn create_stake_account(&mut self, owner: AccountId) -> (r: Result<usize, ErrorCode>)
        requires
            old(self).wf(),
            old(self).subjects@.len() < usize::MAX,
        ensures
            final(self).wf(),
            final(self).vesting_balances@ == old(self).vesting_balances@,
            match r {
                Ok(idx) => {
                    &&& (forall|i: int|
                        0 <= i < old(self).n() ==> old(self).subjects@[i].owner != owner)
                    &&& idx == old(self).subjects@.len()
                    &&& final(self).subjects@ == old(self).subjects@.push(
                        StakeAccountMetadata {
                            recorded_balance: 0,
                            recorded_vesting_balance: 0,
                            owner,
                            delegate: owner,
                            stake_account_checkpoints_last_index: 0,
                        },
                    )
                    &&& final(self).delegate_index@ == old(self).delegate_index@.push(idx)
                    &&& final(self).stores@.len() == old(self).stores@.len() + 1
                    &&& (forall|m: int|
                        0 <= m < old(self).stores@.len() ==> final(self).stores@[m] == old(
                            self,
                        ).stores@[m])
                    &&& final(self).stores@.last().owner == owner
                    &&& final(self).stores@.last().checkpoints@.len() == 0
                },
                Err(e) => {
                    &&& e == ErrorCode::Other
                    &&& (exists|i: int|
                        0 <= i < old(self).n() && old(self).subjects@[i].owner == owner)
                    &&& *final(self) == *old(self)
                },
            },
    {
        let n = self.subjects.len();
        let mut i: usize = 0;
        while i < n
            invariant
                *self == *old(self),
                old(self).wf(),
                n == self.subjects@.len(),
                0 <= i <= n,
                forall|k: int| 0 <= k < i ==> self.subjects@[k].owner != owner,
            decreases n - i,
        {
            if self.subjects[i].owner == owner {
                return Err(ErrorCode::Other);
            }
            i = i + 1;
        }
        let meta = StakeAccountMetadata::initialize(owner, owner, 0);
        let store = CheckpointData::initialize(owner);
        self.subjects.push(meta);
        self.delegate_index.push(n);
        self.stores.push(store);
        proof {
            let subs = self.subjects@;
            let olds = old(self).subjects@;
            assert forall|j: int| 0 <= j < self.n() implies latest_value(
                (#[trigger] self.stores@[j]).checkpoints@,
            ) as int == sum_contrib(subs, subs[j].owner) by {
                lemma_sum_contrib_push(olds, meta, subs[j].owner);
                if j < olds.len() {
                    assert(self.stores@[j] == old(self).stores@[j]);
                    assert(subs[j].owner == olds[j].owner);
                } else {
                    assert forall|i2: int| 0 <= i2 < olds.len() implies olds[i2].delegate
                        != owner by {
                        let k = old(self).delegate_index@[i2] as int;
                        assert(olds[k].owner == olds[i2].delegate);
                        assert(olds[k].owner != owner);
                    }
                    lemma_sum_contrib_absent(olds, owner);
                }
            }
        }
        Ok(n)
    }

    /// Changes a subject's delegate. The subject's previous total leaves
    /// the old delegate's store and its new total (current custody balance
    /// plus vesting balance, resynchronized from a newly finalized vesting
    /// balance on first sight) enters the new delegate's store; when the
    /// delegate is unchanged, one delta checkpoint records the difference.
    /// Both pushes land together or not at all.
    #[verifier::rlimit(50)]
    pub fn delegate(
        &mut self,
        subject: usize,
        delegatee: usize,
        current_stake_balance: u64,
        vesting_config: Option<&VestingConfig>,
        vesting_balance: Option<usize>,
        current_timestamp: u64,
        max_checkpoints_account_limit: u32,
    ) -> (r: Result<DelegateChanged, StakingError>)
        requires
            old(self).wf(),
            subject < old(self).subjects@.len(),
            delegatee < old(self).subjects@.len(),
            match vesting_balance {
                Some(v) => v < old(self).vesting_balances@.len(),
                None => true,
            },
        ensures
            final(self).wf(),
            ({
                let olds = old(self).subjects@;
                let s0 = olds[subject as int];
                let k = old(self).delegate_index@[subject as int] as int;
                let d_old = s0.delegate;
                let d_new = olds[delegatee as int].owner;
                let prev_total = s0.recorded_balance + s0.recorded_vesting_balance;
                let resync = (match (vesting_config, vesting_balance) {
                    (Some(cfg), Some(v)) => cfg.finalized && old(self).vesting_balances@[v as int].delegated_to_subject is None && old(self).vesting_balances@[v as int].vester == s0.owner,
                    _ => false,
                });
                let rvb_new = if resync {
                    s0.recorded_vesting_balance + (match vesting_balance {
                        Some(v) => old(self).vesting_balances@[v as int].total_vesting_balance
                            as int,
                        None => 0,
                    })
                } else {
                    s0.recorded_vesting_balance as int
                };
                let new_total = current_stake_balance + rvb_new;
                match r {
                    Ok(ev) => {
                        &&& old(self).stores@[k].checkpoints@.len()
                            < max_checkpoints_account_limit
                        &&& old(self).stores@[delegatee as int].checkpoints@.len()
                            < max_checkpoints_account_limit
                        &&& (match (vesting_config, vesting_balance) {
                            (Some(cfg), Some(v)) => cfg.finalized ==> old(
                                self,
                            ).vesting_balances@[v as int].vester == s0.owner,
                            _ => true,
                        })
                        &&& rvb_new <= u64::MAX
                        &&& new_total <= u64::MAX
                        &&& final(self).subjects@ == olds.update(
                            subject as int,
                            StakeAccountMetadata {
                                recorded_balance: current_stake_balance,
                                recorded_vesting_balance: rvb_new as u64,
                                delegate: d_new,
                                ..s0
                            },
                        )
                        &&& final(self).delegate_index@ == old(self).delegate_index@.update(
                            subject as int,
                            delegatee,
                        )
                        &&& (resync ==> (match vesting_balance {
                            Some(v) => final(self).vesting_balances@ == old(self).vesting_balances@.update(
                                v as int,
                                VestingBalance {
                                    delegated_to_subject: Some(subject),
                                    ..old(self).vesting_balances@[v as int]
                                },
                            ),
                            None => false,
                        }))
                        &&& (!resync ==> final(self).vesting_balances@ == old(self).vesting_balances@)
                        &&& (k != delegatee ==> {
                            &&& (prev_total > 0 ==> spec_push(
                                old(self).stores@[k].checkpoints@,
                                prev_total as u64,
                                Operation::Subtract,
                                current_timestamp,
                            ) == Ok::<_, ErrorCode>(final(self).stores@[k].checkpoints@))
                            &&& (prev_total == 0 ==> final(self).stores@[k] == old(self).stores@[k])
                            &&& (new_total > 0 ==> spec_push(
                                old(self).stores@[delegatee as int].checkpoints@,
                                new_total as u64,
                                Operation::Add,
                                current_timestamp,
                            ) == Ok::<_, ErrorCode>(
                                final(self).stores@[delegatee as int].checkpoints@,
                            ))
                            &&& (new_total == 0 ==> final(self).stores@[delegatee as int] == old(self).stores@[delegatee as int])
                        })
                        &&& (k == delegatee ==> {
                            &&& (new_total > prev_total ==> spec_push(
                                old(self).stores@[k].checkpoints@,
                                (new_total - prev_total) as u64,
                                Operation::Add,
                                current_timestamp,
                            ) == Ok::<_, ErrorCode>(final(self).stores@[k].checkpoints@))
                            &&& (new_total < prev_total ==> spec_push(
                                old(self).stores@[k].checkpoints@,
                                (prev_total - new_total) as u64,
                                Operation::Subtract,
                                current_timestamp,
                            ) == Ok::<_, ErrorCode>(final(self).stores@[k].checkpoints@))
                            &&& (new_total == prev_total ==> final(self).stores@[k] == old(self).stores@[k])
                        })
                        &&& (forall|m: int|
                            0 <= m < old(self).stores@.len() && m != k && m != delegatee ==> final(self).stores@[m] == old(self).stores@[m])
                        &&& ev == (DelegateChanged {
                            delegator: s0.owner,
                            from_delegate: d_old,
                            to_delegate: d_new,
                            total_delegated_votes: new_total as u64,
                        })
                    },
                    Err(e) => {
                        &&& *final(self) == *old(self)
                        &&& {
                            let pda_mismatch = (match (vesting_config, vesting_balance) {
                                (Some(cfg), Some(v)) => cfg.finalized && old(self).vesting_balances@[v as int].vester != s0.owner,
                                _ => false,
                            });
                            let ts_bad = (k != delegatee && ((prev_total > 0 && !push_timestamp_ok(
                                old(self).stores@[k].checkpoints@,
                                current_timestamp,
                            )) || (new_total > 0 && !push_timestamp_ok(
                                old(self).stores@[delegatee as int].checkpoints@,
                                current_timestamp,
                            )))) || (k == delegatee && new_total != prev_total
                                && !push_timestamp_ok(
                                old(self).stores@[k].checkpoints@,
                                current_timestamp,
                            ));
                            let add_overflow = (k != delegatee && new_total > 0 && latest_value(
                                old(self).stores@[delegatee as int].checkpoints@,
                            ) + new_total > u64::MAX) || (k == delegatee && new_total > prev_total
                                && latest_value(old(self).stores@[k].checkpoints@) + (new_total
                                - prev_total) > u64::MAX);
                            if old(self).stores@[delegatee as int].checkpoints@.len()
                                >= max_checkpoints_account_limit || old(self).stores@[k].checkpoints@.len() >= max_checkpoints_account_limit {
                                e == StakingError::Code(ErrorCode::TooManyCheckpoints)
                            } else if pda_mismatch {
                                e == StakingError::Vesting(VestingError::InvalidVestingBalancePDA)
                            } else if resync && rvb_new > u64::MAX {
                                e == StakingError::Vesting(VestingError::Overflow)
                            } else if new_total > u64::MAX {
                                e == StakingError::Code(ErrorCode::GenericOverflow)
                            } else if ts_bad {
                                e == StakingError::Code(ErrorCode::InvalidTimestamp)
                            } else {
                                e == StakingError::Code(ErrorCode::GenericOverflow) && add_overflow
                            }
                        }
                    },
                }
            }),
    {
        let k = self.delegate_index[subject];
        let j = delegatee;
        let max_limit = max_checkpoints_account_limit as usize;

        if self.stores[j].checkpoints.len() >= max_limit || self.stores[k].checkpoints.len()
            >= max_limit {
            return Err(StakingError::Code(ErrorCode::TooManyCheckpoints));
        }

        let s0 = self.subjects[subject];
        let mut rvb_new = s0.recorded_vesting_balance;
        let mut resync = false;
        match (vesting_config, vesting_balance) {
            (Some(cfg), Some(v)) => {
                if cfg.finalized {
                    let vb = self.vesting_balances[v];
                    if vb.vester != s0.owner {
                        return Err(
                            StakingError::Vesting(VestingError::InvalidVestingBalancePDA),
                        );
                    }
                    match vb.delegated_to_subject {
                        None => {
                            if vb.total_vesting_balance > u64::MAX - rvb_new {
                                return Err(StakingError::Vesting(VestingError::Overflow));
                            }
                            rvb_new = rvb_new + vb.total_vesting_balance;
                            resync = true;
                        },
                        Some(_) => {},
                    }
                }
            },
            _ => {},
        }

        proof {
            lemma_sum_contrib_lower_bound(self.subjects@, subject as int, s0.delegate);
        }
        let prev_total = s0.recorded_balance + s0.recorded_vesting_balance;
        if current_stake_balance > u64::MAX - rvb_new {
            return Err(StakingError::Code(ErrorCode::GenericOverflow));
        }
        let new_total = current_stake_balance + rvb_new;
        let d_new = self.subjects[j].owner;

        if k != j {
            if prev_total > 0 && !self.stores[k].accepts_timestamp(current_timestamp) {
                return Err(StakingError::Code(ErrorCode::InvalidTimestamp));
            }
            if new_total > 0 && !self.stores[j].accepts_timestamp(current_timestamp) {
                return Err(StakingError::Code(ErrorCode::InvalidTimestamp));
            }
            if new_total > 0 {
                let latest_j = self.stores[j].latest_or_zero();
                if new_total > u64::MAX - latest_j {
                    return Err(StakingError::Code(ErrorCode::GenericOverflow));
                }
            }
            if prev_total > 0 {
                let st = &mut self.stores[k];
                let _ev = st.apply_checkpoint(
                    prev_total,
                    Operation::Subtract,
                    current_timestamp,
                );
            }
            if new_total > 0 {
                let st = &mut self.stores[j];
                let _ev = st.apply_checkpoint(new_total, Operation::Add, current_timestamp);
            }
        } else {
            if new_total != prev_total && !self.stores[j].accepts_timestamp(current_timestamp) {
                return Err(StakingError::Code(ErrorCode::InvalidTimestamp));
            }
            if new_total > prev_total {
                let delta = new_total - prev_total;
                let latest_j = self.stores[j].latest_or_zero();
                if delta > u64::MAX - latest_j {
                    return Err(StakingError::Code(ErrorCode::GenericOverflow));
                }
                let st = &mut self.stores[j];
                let _ev = st.apply_checkpoint(delta, Operation::Add, current_timestamp);
            } else if new_total < prev_total {
                let delta = prev_total - new_total;
                let st = &mut self.stores[j];
                let _ev = st.apply_checkpoint(delta, Operation::Subtract, current_timestamp);
            }
        }

        let s_new = StakeAccountMetadata {
            recorded_balance: current_stake_balance,
            recorded_vesting_balance: rvb_new,
            delegate: d_new,
            ..s0
        };
        self.subjects.set(subject, s_new);
        self.delegate_index.set(subject, j);
        if resync {
            match vesting_balance {
                Some(v) => {
                    let vb = self.vesting_balances[v];
                    self.vesting_balances.set(
                        v,
                        VestingBalance { delegated_to_subject: Some(subject), ..vb },
                    );
                },
                None => {},
            }
        }

        proof {
            let olds = old(self).subjects@;
            let subs = self.subjects@;
            let d_old = s0.delegate;
            assert(subs =~= olds.update(subject as int, s_new));
            assert(olds[k as int].owner == d_old);
            assert(olds[j as int].owner == d_new);
            assert forall|m: int| 0 <= m < self.n() implies latest_value(
                (#[trigger] self.stores@[m]).checkpoints@,
            ) as int == sum_contrib(subs, subs[m].owner) by {
                let d = olds[m].owner;
                assert(subs[m].owner == d);
                lemma_sum_contrib_update(olds, subject as int, s_new, d);
                if m != k as int {
                    assert(olds[m].owner != olds[k as int].owner);
                }
                if m != j as int {
                    assert(olds[m].owner != olds[j as int].owner);
                }
            }
        }

        Ok(
            DelegateChanged {
                delegator: s0.owner,
                from_delegate: s0.delegate,
                to_delegate: d_new,
                total_delegated_votes: new_total,
            },
        )
    }

    /// Withdraws custody tokens: reflects the custody balance change in
    /// the current delegate's store, then records the new balance.
    /// `current_stake_balance` is the custody balance after the transfer.
    #[verifier::rlimit(50)]
    pub fn withdraw_tokens(
        &mut self,
        subject: usize,
        amount: u64,
        destination_owner: AccountId,
        signer: AccountId,
        current_stake_balance: u64,
        current_timestamp: u64,
        max_checkpoints_account_limit: u32,
    ) -> (r: Result<crate::stake_account::RecordedBalanceChanged, StakingError>)
        requires
            old(self).wf(),
            subject < old(self).subjects@.len(),
        ensures
            final(self).wf(),
            final(self).vesting_balances@ == old(self).vesting_balances@,
            final(self).delegate_index@ == old(self).delegate_index@,
            ({
                let olds = old(self).subjects@;
                let s0 = olds[subject as int];
                let k = old(self).delegate_index@[subject as int] as int;
                let rises = current_stake_balance > s0.recorded_balance;
                let delta = if rises {
                    current_stake_balance - s0.recorded_balance
                } else {
                    s0.recorded_balance - current_stake_balance
                };
                match r {
                    Ok(ev) => {
                        &&& amount != 0
                        &&& destination_owner == signer
                        &&& old(self).stores@[k].checkpoints@.len()
                            < max_checkpoints_account_limit
                        &&& final(self).subjects@ == olds.update(
                            subject as int,
                            StakeAccountMetadata {
                                recorded_balance: current_stake_balance,
                                ..s0
                            },
                        )
                        &&& spec_push(
                            old(self).stores@[k].checkpoints@,
                            delta as u64,
                            if rises {
                                Operation::Add
                            } else {
                                Operation::Subtract
                            },
                            current_timestamp,
                        ) == Ok::<_, ErrorCode>(final(self).stores@[k].checkpoints@)
                        &&& (forall|m: int|
                            0 <= m < old(self).stores@.len() && m != k ==> final(self).stores@[m]
                                == old(self).stores@[m])
                        &&& ev == (crate::stake_account::RecordedBalanceChanged {
                            owner: s0.owner,
                            previous_balance: s0.recorded_balance,
                            new_balance: current_stake_balance,
                        })
                    },
                    Err(e) => {
                        &&& *final(self) == *old(self)
                        &&& if amount == 0 {
                            e == StakingError::Code(ErrorCode::ZeroWithdrawal)
                        } else if destination_owner != signer {
                            e == StakingError::Code(ErrorCode::WithdrawToUnauthorizedAccount)
                        } else if old(self).stores@[k].checkpoints@.len()
                            >= max_checkpoints_account_limit {
                            e == StakingError::Code(ErrorCode::TooManyCheckpoints)
                        } else if !push_timestamp_ok(
                            old(self).stores@[k].checkpoints@,
                            current_timestamp,
                        ) {
                            e == StakingError::Code(ErrorCode::InvalidTimestamp)
                        } else {
                            &&& e == StakingError::Code(ErrorCode::GenericOverflow)
                            &&& rises
                            &&& latest_value(old(self).stores@[k].checkpoints@) + delta > u64::MAX
                        }
                    },
                }
            }),
    {
        if amount == 0 {
            return Err(StakingError::Code(ErrorCode::ZeroWithdrawal));
        }
        if destination_owner != signer {
            return Err(StakingError::Code(ErrorCode::WithdrawToUnauthorizedAccount));
        }
        let k = self.delegate_index[subject];
        let max_limit = max_checkpoints_account_limit as usize;
        if self.stores[k].checkpoints.len() >= max_limit {
            return Err(StakingError::Code(ErrorCode::TooManyCheckpoints));
        }
        if !self.stores[k].accepts_timestamp(current_timestamp) {
            return Err(StakingError::Code(ErrorCode::InvalidTimestamp));
        }
        let s0 = self.subjects[subject];
        proof {
            lemma_sum_contrib_lower_bound(self.subjects@, subject as int, s0.delegate);
        }
        let ev = if current_stake_balance > s0.recorded_balance {
            let delta = current_stake_balance - s0.recorded_balance;
            let latest_k = self.stores[k].latest_or_zero();
            if delta > u64::MAX - latest_k {
                return Err(StakingError::Code(ErrorCode::GenericOverflow));
            }
            let st = &mut self.stores[k];
            st.apply_checkpoint(delta, Operation::Add, current_timestamp)
        } else {
            let delta = s0.recorded_balance - current_stake_balance;
            let st = &mut self.stores[k];
            st.apply_checkpoint(delta, Operation::Subtract, current_timestamp)
        };
        let s_new = StakeAccountMetadata { recorded_balance: current_stake_balance, ..s0 };
        self.subjects.set(subject, s_new);
        proof {
            let olds = old(self).subjects@;
            let subs = self.subjects@;
            assert(subs =~= olds.update(subject as int, s_new));
            assert(olds[k as int].owner == s0.delegate);
            assert forall|m: int| 0 <= m < self.n() implies latest_value(
                (#[trigger] self.stores@[m]).checkpoints@,
            ) as int == sum_contrib(subs, subs[m].owner) by {
                let d = olds[m].owner;
                assert(subs[m].owner == d);
                lemma_sum_contrib_update(olds, subject as int, s_new, d);
                if m != k as int {
                    assert(olds[m].owner != olds[k as int].owner);
                }
            }
        }
        let _ = ev;
        Ok(
            crate::stake_account::RecordedBalanceChanged {
                owner: s0.owner,
                previous_balance: s0.recorded_balance,
                new_balance: current_stake_balance,
            },
        )
    }

    /// Closes a matured vesting grant: when the vester's balance is linked
    /// to a delegated subject, the subject's recorded vesting balance and
    /// the delegate's store both drop by the claimed amount, atomically
    /// with the vesting totals.
    #[verifier::rlimit(50)]
    pub fn claim_vesting(
        &mut self,
        vesting_balance: usize,
        config: &mut VestingConfig,
        vest: &Vesting,
        current_time: i64,
        current_timestamp: u64,
        max_checkpoints_account_limit: u32,
    ) -> (r: Result<Option<CloseVestingEvents>, StakingError>)
        requires
            old(self).wf(),
            vesting_balance < old(self).vesting_balances@.len(),
        ensures
            final(self).wf(),
            final(self).delegate_index@ == old(self).delegate_index@,
            ({
                let vb0 = old(self).vesting_balances@[vesting_balance as int];
                let amount = vest.amount;
                match r {
                    Ok(events) => {
                        &&& old(config).finalized
                        &&& current_time >= vest.maturation
                        &&& amount <= old(config).vested
                        &&& amount <= vb0.total_vesting_balance
                        &&& *final(config) == (VestingConfig {
                            vested: (old(config).vested - amount) as u64,
                            ..*old(config)
                        })
                        &&& final(self).vesting_balances@ == old(self).vesting_balances@.update(
                            vesting_balance as int,
                            VestingBalance {
                                total_vesting_balance: (vb0.total_vesting_balance - amount) as u64,
                                ..vb0
                            },
                        )
                        &&& (match vb0.delegated_to_subject {
                            Some(s) => {
                                let s0 = old(self).subjects@[s as int];
                                let k = old(self).delegate_index@[s as int] as int;
                                &&& old(self).stores@[k].checkpoints@.len()
                                    < max_checkpoints_account_limit
                                &&& amount <= s0.recorded_vesting_balance
                                &&& (events matches Some(evs) && evs.recorded_vesting_balance_changed
                                    == (crate::stake_account::RecordedVestingBalanceChanged {
                                    owner: s0.owner,
                                    previous_balance: s0.recorded_vesting_balance,
                                    new_balance: (s0.recorded_vesting_balance - amount) as u64,
                                }))
                                &&& final(self).subjects@ == old(self).subjects@.update(
                                    s as int,
                                    StakeAccountMetadata {
                                        recorded_vesting_balance: (s0.recorded_vesting_balance
                                            - amount) as u64,
                                        ..s0
                                    },
                                )
                                &&& spec_push(
                                    old(self).stores@[k].checkpoints@,
                                    amount,
                                    Operation::Subtract,
                                    current_timestamp,
                                ) == Ok::<_, ErrorCode>(final(self).stores@[k].checkpoints@)
                                &&& (forall|m: int|
                                    0 <= m < old(self).stores@.len() && m != k ==> final(self).stores@[m] == old(self).stores@[m])
                            },
                            None => {
                                &&& events is None
                                &&& final(self).subjects@ == old(self).subjects@
                                &&& final(self).stores@ == old(self).stores@
                            },
                        })
                    },
                    Err(e) => {
                        &&& *final(self) == *old(self)
                        &&& *final(config) == *old(config)
                        &&& if !old(config).finalized {
                            e == StakingError::Vesting(VestingError::VestingUnfinalized)
                        } else if current_time < vest.maturation {
                            e == StakingError::Vesting(VestingError::NotFullyVested)
                        } else {
                            match vb0.delegated_to_subject {
                                Some(s) => {
                                    let s0 = old(self).subjects@[s as int];
                                    let k = old(self).delegate_index@[s as int] as int;
                                    if old(self).stores@[k].checkpoints@.len()
                                        >= max_checkpoints_account_limit {
                                        e == StakingError::Code(ErrorCode::TooManyCheckpoints)
                                    } else if amount > s0.recorded_vesting_balance {
                                        e == StakingError::Vesting(VestingError::Underflow)
                                    } else if !push_timestamp_ok(
                                        old(self).stores@[k].checkpoints@,
                                        current_timestamp,
                                    ) {
                                        e == StakingError::Code(ErrorCode::InvalidTimestamp)
                                    } else {
                                        &&& e == StakingError::Vesting(VestingError::Underflow)
                                        &&& (amount > old(config).vested || amount
                                            > vb0.total_vesting_balance)
                                    }
                                },
                                None => {
                                    &&& e == StakingError::Vesting(VestingError::Underflow)
                                    &&& (amount > old(config).vested || amount
                                        > vb0.total_vesting_balance)
                                },
                            }
                        }
                    },
                }
            }),
    {
        if !config.finalized {
            return Err(StakingError::Vesting(VestingError::VestingUnfinalized));
        }
        if current_time < vest.maturation {
            return Err(StakingError::Vesting(VestingError::NotFullyVested));
        }
        let vb0 = self.vesting_balances[vesting_balance];
        let amount = vest.amount;
        let mut events: Option<CloseVestingEvents> = None;
        match vb0.delegated_to_subject {
            Some(s) => {
                let k = self.delegate_index[s];
                let max_limit = max_checkpoints_account_limit as usize;
                if self.stores[k].checkpoints.len() >= max_limit {
                    return Err(StakingError::Code(ErrorCode::TooManyCheckpoints));
                }
                let s0 = self.subjects[s];
                if amount > s0.recorded_vesting_balance {
                    return Err(StakingError::Vesting(VestingError::Underflow));
                }
                if !self.stores[k].accepts_timestamp(current_timestamp) {
                    return Err(StakingError::Code(ErrorCode::InvalidTimestamp));
                }
                if amount > config.vested || amount > vb0.total_vesting_balance {
                    return Err(StakingError::Vesting(VestingError::Underflow));
                }
                proof {
                    lemma_sum_contrib_lower_bound(self.subjects@, s as int, s0.delegate);
                }
                let st = &mut self.stores[k];
                let dvc = st.apply_checkpoint(amount, Operation::Subtract, current_timestamp);
                let s_new = StakeAccountMetadata {
                    recorded_vesting_balance: s0.recorded_vesting_balance - amount,
                    ..s0
                };
                self.subjects.set(s, s_new);
                events = Some(
                    CloseVestingEvents {
                        recorded_vesting_balance_changed:
                            crate::stake_account::RecordedVestingBalanceChanged {
                            owner: s0.owner,
                            previous_balance: s0.recorded_vesting_balance,
                            new_balance: s0.recorded_vesting_balance - amount,
                        },
                        delegate_votes_changed: dvc,
                    },
                );
                proof {
                    let olds = old(self).subjects@;
                    let subs = self.subjects@;
                    assert(subs =~= olds.update(s as int, s_new));
                    assert(olds[k as int].owner == s0.delegate);
                    assert forall|m: int| 0 <= m < self.n() implies latest_value(
                        (#[trigger] self.stores@[m]).checkpoints@,
                    ) as int == sum_contrib(subs, subs[m].owner) by {
                        let d = olds[m].owner;
                        assert(subs[m].owner == d);
                        lemma_sum_contrib_update(olds, s as int, s_new, d);
                        if m != k as int {
                            assert(olds[m].owner != olds[k as int].owner);
                        }
                    }
                }
            },
            None => {
                if amount > config.vested || amount > vb0.total_vesting_balance {
                    return Err(StakingError::Vesting(VestingError::Underflow));
                }
            },
        }
        config.vested = config.vested - amount;
        self.vesting_balances.set(
            vesting_balance,
            VestingBalance {
                total_vesting_balance: vb0.total_vesting_balance - amount,
                ..vb0
            },
        );
        Ok(events)
    }

    /// The first reason a vesting transfer would be refused, mirroring the
    /// order in which `transfer_vesting` checks: configuration finalized,
    /// no self-transfer, then the sender's side, the recipient's side, and
    /// the running totals, all before anything changes.
    pub open spec fn spec_transfer_vesting_error(
        &self,
        vb_from_i: int,
        vb_to_i: int,
        finalized: bool,
        amount: u64,
        new_vest_amount: u64,
        ts: u64,
        max: int,
    ) -> Option<StakingError> {
        let vb_from = self.vesting_balances@[vb_from_i];
        let vb_to = self.vesting_balances@[vb_to_i];
        if !finalized {
            Some(StakingError::Vesting(VestingError::VestingUnfinalized))
        } else if vb_from.vester == vb_to.vester {
            Some(StakingError::Vesting(VestingError::TransferVestToMyself))
        } else {
            let side1 = (match vb_from.delegated_to_subject {
                Some(s1) => {
                    let k1 = self.delegate_index@[s1 as int] as int;
                    if self.stores@[k1].checkpoints@.len() >= max {
                        Some(StakingError::Code(ErrorCode::TooManyCheckpoints))
                    } else if amount > self.subjects@[s1 as int].recorded_vesting_balance {
                        Some(StakingError::Vesting(VestingError::Underflow))
                    } else if !push_timestamp_ok(self.stores@[k1].checkpoints@, ts) {
                        Some(StakingError::Code(ErrorCode::InvalidTimestamp))
                    } else {
                        None
                    }
                },
                None => None,
            });
            let same_store = (match (vb_from.delegated_to_subject, vb_to.delegated_to_subject) {
                (Some(s1), Some(s2)) => self.delegate_index@[s1 as int]
                    == self.delegate_index@[s2 as int],
                _ => false,
            });
            let side2 = (match vb_to.delegated_to_subject {
                Some(s2) => {
                    let k2 = self.delegate_index@[s2 as int] as int;
                    if self.stores@[k2].checkpoints@.len() >= max {
                        Some(StakingError::Code(ErrorCode::TooManyCheckpoints))
                    } else if amount > u64::MAX - self.subjects@[s2 as int].recorded_vesting_balance {
                        Some(StakingError::Vesting(VestingError::Overflow))
                    } else if !push_timestamp_ok(self.stores@[k2].checkpoints@, ts) {
                        Some(StakingError::Code(ErrorCode::InvalidTimestamp))
                    } else if !same_store && amount > u64::MAX - latest_value(
                        self.stores@[k2].checkpoints@,
                    ) {
                        Some(StakingError::Code(ErrorCode::GenericOverflow))
                    } else {
                        None
                    }
                },
                None => None,
            });
            if side1 is Some {
                side1
            } else if side2 is Some {
                side2
            } else if amount > vb_from.total_vesting_balance {
                Some(StakingError::Vesting(VestingError::Underflow))
            } else if amount > u64::MAX - vb_to.total_vesting_balance {
                Some(StakingError::Vesting(VestingError::Overflow))
            } else if amount > u64::MAX - new_vest_amount {
                Some(StakingError::Vesting(VestingError::Overflow))
            } else {
                None
            }
        }
    }

    /// Moves a grant to a new vester. Wherever a vesting balance is
    /// counted toward a delegated subject, that subject's recorded vesting
    /// balance and its delegate's store change together with it: the
    /// sender's side loses the amount, the recipient's side gains it.
    #[verifier::rlimit(100)]
    pub fn transfer_vesting(
        &mut self,
        vesting_balance: usize,
        new_vesting_balance: usize,
        config: &VestingConfig,
        vest: &Vesting,
        new_vest: &mut Vesting,
        current_timestamp: u64,
        max_checkpoints_account_limit: u32,
    ) -> (r: Result<TransferVestingEvents, StakingError>)
        requires
            old(self).wf(),
            vesting_balance < old(self).vesting_balances@.len(),
            new_vesting_balance < old(self).vesting_balances@.len(),
        ensures
            final(self).wf(),
            final(self).delegate_index@ == old(self).delegate_index@,
            ({
                let vb_from = old(self).vesting_balances@[vesting_balance as int];
                let vb_to = old(self).vesting_balances@[new_vesting_balance as int];
                let amount = vest.amount;
                let decision = old(self).spec_transfer_vesting_error(
                    vesting_balance as int,
                    new_vesting_balance as int,
                    config.finalized,
                    amount,
                    old(new_vest).amount,
                    current_timestamp,
                    max_checkpoints_account_limit as int,
                );
                match r {
                    Ok(ev) => {
                        &&& decision is None
                        &&& *final(new_vest) == (Vesting {
                            amount: (old(new_vest).amount + amount) as u64,
                            ..*old(new_vest)
                        })
                        &&& final(self).vesting_balances@ == old(self).vesting_balances@.update(
                            vesting_balance as int,
                            VestingBalance {
                                total_vesting_balance: (vb_from.total_vesting_balance
                                    - amount) as u64,
                                ..vb_from
                            },
                        ).update(
                            new_vesting_balance as int,
                            VestingBalance {
                                total_vesting_balance: (vb_to.total_vesting_balance
                                    + amount) as u64,
                                ..vb_to
                            },
                        )
                        &&& (match vb_from.delegated_to_subject {
                            Some(s1) => {
                                let s01 = old(self).subjects@[s1 as int];
                                &&& final(self).subjects@[s1 as int]
                                    == (StakeAccountMetadata {
                                    recorded_vesting_balance: (s01.recorded_vesting_balance
                                        - amount) as u64,
                                    ..s01
                                })
                                &&& (ev.stake_account_metadata is Some)
                            },
                            None => {
                                &&& ev.stake_account_metadata is None
                            },
                        })
                        &&& (match vb_to.delegated_to_subject {
                            Some(s2) => {
                                let s02 = old(self).subjects@[s2 as int];
                                &&& final(self).subjects@[s2 as int]
                                    == (StakeAccountMetadata {
                                    recorded_vesting_balance: (s02.recorded_vesting_balance
                                        + amount) as u64,
                                    ..s02
                                })
                                &&& (ev.new_stake_account_metadata is Some)
                            },
                            None => {
                                &&& ev.new_stake_account_metadata is None
                            },
                        })
                        &&& (forall|m: int|
                            0 <= m < old(self).subjects@.len() && (match vb_from.delegated_to_subject {
                                Some(s1) => m != s1 as int,
                                None => true,
                            }) && (match vb_to.delegated_to_subject {
                                Some(s2) => m != s2 as int,
                                None => true,
                            }) ==> final(self).subjects@[m] == old(self).subjects@[m])
                        &&& (forall|m: int|
                            0 <= m < old(self).stores@.len() && (match vb_from.delegated_to_subject {
                                Some(s1) => m != old(self).delegate_index@[s1 as int] as int,
                                None => true,
                            }) && (match vb_to.delegated_to_subject {
                                Some(s2) => m != old(self).delegate_index@[s2 as int] as int,
                                None => true,
                            }) ==> final(self).stores@[m] == old(self).stores@[m])
                    },
                    Err(e) => {
                        &&& *final(self) == *old(self)
                        &&& *final(new_vest) == *old(new_vest)
                        &&& decision == Some(e)
                    },
                }
            }),
    {
        let ghost decision = old(self).spec_transfer_vesting_error(
            vesting_balance as int,
            new_vesting_balance as int,
            config.finalized,
            vest.amount,
            new_vest.amount,
            current_timestamp,
            max_checkpoints_account_limit as int,
        );
        if !config.finalized {
            return Err(StakingError::Vesting(VestingError::VestingUnfinalized));
        }
        let vb_from = self.vesting_balances[vesting_balance];
        let vb_to = self.vesting_balances[new_vesting_balance];
        if vb_from.vester == vb_to.vester {
            return Err(StakingError::Vesting(VestingError::TransferVestToMyself));
        }
        let amount = vest.amount;
        let max_limit = max_checkpoints_account_limit as usize;

        // Sender's side, checked first.
        match vb_from.delegated_to_subject {
            Some(s1) => {
                let k1 = self.delegate_index[s1];
                if self.stores[k1].checkpoints.len() >= max_limit {
                    return Err(StakingError::Code(ErrorCode::TooManyCheckpoints));
                }
                if amount > self.subjects[s1].recorded_vesting_balance {
                    return Err(StakingError::Vesting(VestingError::Underflow));
                }
                if !self.stores[k1].accepts_timestamp(current_timestamp) {
                    return Err(StakingError::Code(ErrorCode::InvalidTimestamp));
                }
            },
            None => {},
        }
        // Recipient's side.
        let same_store = match (vb_from.delegated_to_subject, vb_to.delegated_to_subject) {
            (Some(s1), Some(s2)) => self.delegate_index[s1] == self.delegate_index[s2],
            _ => false,
        };
        match vb_to.delegated_to_subject {
            Some(s2) => {
                let k2 = self.delegate_index[s2];
                if self.stores[k2].checkpoints.len() >= max_limit {
                    return Err(StakingError::Code(ErrorCode::TooManyCheckpoints));
                }
                if amount > u64::MAX - self.subjects[s2].recorded_vesting_balance {
                    return Err(StakingError::Vesting(VestingError::Overflow));
                }
                if !self.stores[k2].accepts_timestamp(current_timestamp) {
                    return Err(StakingError::Code(ErrorCode::InvalidTimestamp));
                }
                if !same_store {
                    let latest_k2 = self.stores[k2].latest_or_zero();
                    if amount > u64::MAX - latest_k2 {
                        return Err(StakingError::Code(ErrorCode::GenericOverflow));
                    }
                }
            },
            None => {},
        }
        // Running totals.
        if amount > vb_from.total_vesting_balance {
            return Err(StakingError::Vesting(VestingError::Underflow));
        }
        if amount > u64::MAX - vb_to.total_vesting_balance {
            return Err(StakingError::Vesting(VestingError::Overflow));
        }
        if amount > u64::MAX - new_vest.amount {
            return Err(StakingError::Vesting(VestingError::Overflow));
        }
        proof {
            assert(decision is None);
            // Distinct vesters mean distinct subjects on the two sides.
            match (vb_from.delegated_to_subject, vb_to.delegated_to_subject) {
                (Some(s1), Some(s2)) => {
                    assert(old(self).subjects@[s1 as int].owner == vb_from.vester);
                    assert(old(self).subjects@[s2 as int].owner == vb_to.vester);
                    if s1 as int != s2 as int {
                    } else {
                        assert(false);
                    }
                },
                _ => {},
            }
        }

        // Apply the sender's side.
        let mut events1: Option<StakeAccountMetadataEvents> = None;
        match vb_from.delegated_to_subject {
            Some(s1) => {
                let k1 = self.delegate_index[s1];
                let s01 = self.subjects[s1];
                proof {
                    lemma_sum_contrib_lower_bound(self.subjects@, s1 as int, s01.delegate);
                }
                let st = &mut self.stores[k1];
                let dvc = st.apply_checkpoint(amount, Operation::Subtract, current_timestamp);
                let s_new = StakeAccountMetadata {
                    recorded_vesting_balance: s01.recorded_vesting_balance - amount,
                    ..s01
                };
                self.subjects.set(s1, s_new);
                events1 = Some(
                    StakeAccountMetadataEvents {
                        recorded_vesting_balance_changed:
                            crate::stake_account::RecordedVestingBalanceChanged {
                            owner: s01.owner,
                            previous_balance: s01.recorded_vesting_balance,
                            new_balance: s01.recorded_vesting_balance - amount,
                        },
                        delegate_votes_changed: Some(dvc),
                    },
                );
            },
            None => {},
        }
        // Apply the recipient's side.
        let mut events2: Option<StakeAccountMetadataEvents> = None;
        match vb_to.delegated_to_subject {
            Some(s2) => {
                let k2 = self.delegate_index[s2];
                let s02 = self.subjects[s2];
                let st = &mut self.stores[k2];
                let dvc = st.apply_checkpoint(amount, Operation::Add, current_timestamp);
                let s_new = StakeAccountMetadata {
                    recorded_vesting_balance: s02.recorded_vesting_balance + amount,
                    ..s02
                };
                self.subjects.set(s2, s_new);
                events2 = Some(
                    StakeAccountMetadataEvents {
                        recorded_vesting_balance_changed:
                            crate::stake_account::RecordedVestingBalanceChanged {
                            owner: s02.owner,
                            previous_balance: s02.recorded_vesting_balance,
                            new_balance: s02.recorded_vesting_balance + amount,
                        },
                        delegate_votes_changed: Some(dvc),
                    },
                );
            },
            None => {},
        }
        // The vesting totals and the merged grant.
        self.vesting_balances.set(
            vesting_balance,
            VestingBalance {
                total_vesting_balance: vb_from.total_vesting_balance - amount,
                ..vb_from
            },
        );
        self.vesting_balances.set(
            new_vesting_balance,
            VestingBalance { total_vesting_balance: vb_to.total_vesting_balance + amount, ..vb_to },
        );
        new_vest.amount = new_vest.amount + amount;

        proof {
            let olds = old(self).subjects@;
            let subs = self.subjects@;
            assert forall|m: int| 0 <= m < self.n() implies latest_value(
                (#[trigger] self.stores@[m]).checkpoints@,
            ) as int == sum_contrib(subs, subs[m].owner) by {
                let d = olds[m].owner;
                match vb_from.delegated_to_subject {
                    Some(s1) => {
                        let s01 = olds[s1 as int];
                        let k1 = old(self).delegate_index@[s1 as int] as int;
                        let mid = olds.update(
                            s1 as int,
                            StakeAccountMetadata {
                                recorded_vesting_balance: (s01.recorded_vesting_balance
                                    - amount) as u64,
                                ..s01
                            },
                        );
                        lemma_sum_contrib_update(
                            olds,
                            s1 as int,
                            StakeAccountMetadata {
                                recorded_vesting_balance: (s01.recorded_vesting_balance
                                    - amount) as u64,
                                ..s01
                            },
                            d,
                        );
                        assert(olds[k1].owner == s01.delegate);
                        if m != k1 {
                            assert(olds[m].owner != olds[k1].owner);
                        }
                        match vb_to.delegated_to_subject {
                            Some(s2) => {
                                let s02 = olds[s2 as int];
                                let k2 = old(self).delegate_index@[s2 as int] as int;
                                assert(mid[s2 as int] == s02);
                                lemma_sum_contrib_update(
                                    mid,
                                    s2 as int,
                                    StakeAccountMetadata {
                                        recorded_vesting_balance: (s02.recorded_vesting_balance
                                            + amount) as u64,
                                        ..s02
                                    },
                                    d,
                                );
                                assert(subs =~= mid.update(
                                    s2 as int,
                                    StakeAccountMetadata {
                                        recorded_vesting_balance: (s02.recorded_vesting_balance
                                            + amount) as u64,
                                        ..s02
                                    },
                                ));
                                assert(olds[k2].owner == s02.delegate);
                                if m != k2 {
                                    assert(olds[m].owner != olds[k2].owner);
                                }
                            },
                            None => {
                                assert(subs =~= mid);
                            },
                        }
                    },
                    None => {
                        match vb_to.delegated_to_subject {
                            Some(s2) => {
                                let s02 = olds[s2 as int];
                                let k2 = old(self).delegate_index@[s2 as int] as int;
                                lemma_sum_contrib_update(
                                    olds,
                                    s2 as int,
                                    StakeAccountMetadata {
                                        recorded_vesting_balance: (s02.recorded_vesting_balance
                                            + amount) as u64,
                                        ..s02
                                    },
                                    d,
                                );
                                assert(subs =~= olds.update(
                                    s2 as int,
                                    StakeAccountMetadata {
                                        recorded_vesting_balance: (s02.recorded_vesting_balance
                                            + amount) as u64,
                                        ..s02
                                    },
                                ));
                                assert(olds[k2].owner == s02.delegate);
                                if m != k2 {
                                    assert(olds[m].owner != olds[k2].owner);
                                }
                            },
                            None => {
                                assert(subs =~= olds);
                            },
                        }
                    },
                }
            }
        }

        Ok(
            TransferVestingEvents {
                stake_account_metadata: events1,
                new_stake_account_metadata: events2,
            },
        )
    }

    /// Switches a subject's writes to a fresh store seeded with the latest
    /// checkpoint, advancing the segment counter; the running total is
    /// untouched.
    pub fn create_checkpoints(&mut self, subject: usize) -> (r: Result<(), ErrorCode>)
        requires
            old(self).wf(),
            subject < old(self).subjects@.len(),
        ensures
            final(self).wf(),
            final(self).vesting_balances@ == old(self).vesting_balances@,
            final(self).delegate_index@ == old(self).delegate_index@,
            ({
                let s0 = old(self).subjects@[subject as int];
                let st0 = old(self).stores@[subject as int];
                match r {
                    Ok(()) => {
                        &&& st0.checkpoints@.len() > 0
                        &&& s0.stake_account_checkpoints_last_index < u16::MAX
                        &&& final(self).subjects@ == old(self).subjects@.update(
                            subject as int,
                            StakeAccountMetadata {
                                stake_account_checkpoints_last_index: (
                                s0.stake_account_checkpoints_last_index + 1) as u16,
                                ..s0
                            },
                        )
                        &&& final(self).stores@[subject as int].owner == st0.owner
                        &&& final(self).stores@[subject as int].checkpoints@ =~= seq![
                            st0.checkpoints@.last(),
                        ]
                        &&& (forall|m: int|
                            0 <= m < old(self).stores@.len() && m != subject as int ==> final(self).stores@[m] == old(self).stores@[m])
                    },
                    Err(e) => {
                        &&& *final(self) == *old(self)
                        &&& if st0.checkpoints@.len() == 0 {
                            e == ErrorCode::CheckpointNotFound
                        } else {
                            e == ErrorCode::TooManyCheckpoints
                                && s0.stake_account_checkpoints_last_index == u16::MAX
                        }
                    },
                }
            }),
    {
        let n_cp = self.stores[subject].checkpoints.len();
        if n_cp == 0 {
            return Err(ErrorCode::CheckpointNotFound);
        }
        let s0 = self.subjects[subject];
        if s0.stake_account_checkpoints_last_index == u16::MAX {
            return Err(ErrorCode::TooManyCheckpoints);
        }
        let owner = self.stores[subject].owner;
        let last_cp = self.stores[subject].checkpoints[n_cp - 1];
        let mut fresh: Vec<crate::checkpoints::Checkpoint> = Vec::new();
        fresh.push(last_cp);
        let st = &mut self.stores[subject];
        *st = CheckpointData { owner, checkpoints: fresh };
        let s_new = StakeAccountMetadata {
            stake_account_checkpoints_last_index: s0.stake_account_checkpoints_last_index + 1,
            ..s0
        };
        self.subjects.set(subject, s_new);
        proof {
            let olds = old(self).subjects@;
            let subs = self.subjects@;
            assert(subs =~= olds.update(subject as int, s_new));
            assert forall|m: int| 0 <= m < self.n() implies latest_value(
                (#[trigger] self.stores@[m]).checkpoints@,
            ) as int == sum_contrib(subs, subs[m].owner) by {
                let d = olds[m].owner;
                lemma_sum_contrib_update(olds, subject as int, s_new, d);
            }
        }
        Ok(())
    }

    /// Opens a new grant against a non-finalized configuration, raising
    /// the configuration's vested total and the vester's balance together.
    pub fn create_vesting(
        &mut self,
        vesting_balance: usize,
        config: &mut VestingConfig,
        config_key: AccountId,
        vester: AccountId,
        maturation: i64,
        amount: u64,
    ) -> (r: Result<Vesting, StakingError>)
        requires
            old(self).wf(),
            vesting_balance < old(self).vesting_balances@.len(),
        ensures
            final(self).wf(),
            final(self).subjects@ == old(self).subjects@,
            final(self).stores@ == old(self).stores@,
            ({
                let vb0 = old(self).vesting_balances@[vesting_balance as int];
                match r {
                    Ok(vest) => {
                        &&& !old(config).finalized
                        &&& old(config).vested + amount <= u64::MAX
                        &&& vb0.total_vesting_balance + amount <= u64::MAX
                        &&& *final(config) == (VestingConfig {
                            vested: (old(config).vested + amount) as u64,
                            ..*old(config)
                        })
                        &&& final(self).vesting_balances@ == old(self).vesting_balances@.update(
                            vesting_balance as int,
                            VestingBalance {
                                total_vesting_balance: (vb0.total_vesting_balance + amount) as u64,
                                ..vb0
                            },
                        )
                        &&& vest == (Vesting { vester_ta: vester, config: config_key, amount, maturation })
                    },
                    Err(e) => {
                        &&& *final(self) == *old(self)
                        &&& *final(config) == *old(config)
                        &&& if old(config).finalized {
                            e == StakingError::Vesting(VestingError::VestingFinalized)
                        } else {
                            e == StakingError::Vesting(VestingError::Overflow) && (old(config).vested + amount > u64::MAX || vb0.total_vesting_balance + amount
                                > u64::MAX)
                        }
                    },
                }
            }),
    {
        if config.finalized {
            return Err(StakingError::Vesting(VestingError::VestingFinalized));
        }
        if amount > u64::MAX - config.vested {
            return Err(StakingError::Vesting(VestingError::Overflow));
        }
        let vb0 = self.vesting_balances[vesting_balance];
        if amount > u64::MAX - vb0.total_vesting_balance {
            return Err(StakingError::Vesting(VestingError::Overflow));
        }
        config.vested = config.vested + amount;
        self.vesting_balances.set(
            vesting_balance,
            VestingBalance { total_vesting_balance: vb0.total_vesting_balance + amount, ..vb0 },
        );
        Ok(Vesting { vester_ta: vester, config: config_key, amount, maturation })
    }

    /// Cancels a grant on a non-finalized configuration, lowering the
    /// configuration's vested total and the vester's balance together.
    pub fn cancel_vesting(
        &mut self,
        vesting_balance: usize,
        config: &mut VestingConfig,
        vest: &Vesting,
    ) -> (r: Result<(), StakingError>)
        requires
            old(self).wf(),
            vesting_balance < old(self).vesting_balances@.len(),
        ensures
            final(self).wf(),
            final(self).subjects@ == old(self).subjects@,
            final(self).stores@ == old(self).stores@,
            ({
                let vb0 = old(self).vesting_balances@[vesting_balance as int];
                match r {
                    Ok(()) => {
                        &&& !old(config).finalized
                        &&& vest.amount <= old(config).vested
                        &&& vest.amount <= vb0.total_vesting_balance
                        &&& *final(config) == (VestingConfig {
                            vested: (old(config).vested - vest.amount) as u64,
                            ..*old(config)
                        })
                        &&& final(self).vesting_balances@ == old(self).vesting_balances@.update(
                            vesting_balance as int,
                            VestingBalance {
                                total_vesting_balance: (vb0.total_vesting_balance
                                    - vest.amount) as u64,
                                ..vb0
                            },
                        )
                    },
                    Err(e) => {
                        &&& *final(self) == *old(self)
                        &&& *final(config) == *old(config)
                        &&& if old(config).finalized {
                            e == StakingError::Vesting(VestingError::VestingFinalized)
                        } else {
                            e == StakingError::Vesting(VestingError::Underflow) && (vest.amount
                                > old(config).vested || vest.amount > vb0.total_vesting_balance)
                        }
                    },
                }
            }),
    {
        if config.finalized {
            return Err(StakingError::Vesting(VestingError::VestingFinalized));
        }
        let vb0 = self.vesting_balances[vesting_balance];
        if vest.amount > config.vested || vest.amount > vb0.total_vesting_balance {
            return Err(StakingError::Vesting(VestingError::Underflow));
        }
        config.vested = config.vested - vest.amount;
        self.vesting_balances.set(
            vesting_balance,
            VestingBalance {
                total_vesting_balance: vb0.total_vesting_balance - vest.amount,
                ..vb0
            },
        );
        Ok(())
    }

    /// Opens a fresh vesting balance for a vester, not yet linked to any
    /// subject.
    pub fn create_vesting_balance(&mut self, vester: AccountId) -> (idx: usize)
        requires
            old(self).wf(),
            old(self).vesting_balances@.len() < usize::MAX,
        ensures
            final(self).wf(),
            final(self).subjects@ == old(self).subjects@,
            final(self).stores@ == old(self).stores@,
            idx == old(self).vesting_balances@.len(),
            final(self).vesting_balances@ == old(self).vesting_balances@.push(
                VestingBalance {
                    vester,
                    total_vesting_balance: 0,
                    delegated_to_subject: None::<usize>,
                },
            ),
    {
        let idx = self.vesting_balances.len();
        self.vesting_balances.push(
            VestingBalance { vester, total_vesting_balance: 0, delegated_to_subject: None },
        );
        idx
    }
}

} // verus!

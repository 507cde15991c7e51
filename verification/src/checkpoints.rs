//! The append-only per-subject time-series of `(timestamp, value)` pairs:
//! push with same-instant coalescing, latest-value reads, and the
//! at-or-before binary search.

use vstd::prelude::*;
use crate::error::ErrorCode;
use crate::ids::AccountId;

verus! {

/// A `(timestamp, value)` snapshot of a quantity at a point in time.
#[derive(Clone, Copy, PartialEq, Eq, Structural, Debug)]
pub struct Checkpoint {
    pub timestamp: u64,
    pub value: u64,
}

/// Whether a push raises or lowers the running value.
#[derive(Clone, Copy, PartialEq, Eq, Structural, Debug)]
pub enum Operation {
    Add,
    Subtract,
}

/// What a successful push did to the owning delegate's running total.
#[derive(Clone, Copy, PartialEq, Eq, Structural, Debug)]
pub struct DelegateVotesChanged {
    pub delegate: AccountId,
    pub previous_balance: u64,
    pub new_balance: u64,
}

/// A subject's checkpoint store: its owner and the populated entries,
/// oldest first.
#[derive(Debug)]
pub struct CheckpointData {
    pub owner: AccountId,
    pub checkpoints: Vec<Checkpoint>,
}

/// Timestamps never decrease along the store.
pub open spec fn timestamps_sorted(cps: Seq<Checkpoint>) -> bool {
    forall|i: int, j: int|
        0 <= i <= j < cps.len() ==> cps[i].timestamp <= cps[j].timestamp
}

/// Whether a push at `ts` would be in order: an empty history accepts any
/// timestamp, otherwise the latest entry must not be newer.
pub open spec fn push_timestamp_ok(cps: Seq<Checkpoint>, ts: u64) -> bool {
    cps.len() == 0 || cps.last().timestamp <= ts
}

/// The latest recorded value, or zero for an empty history.
pub open spec fn latest_value(cps: Seq<Checkpoint>) -> u64 {
    if cps.len() == 0 {
        0
    } else {
        cps.last().value
    }
}

/// The checked result of applying a delta, or `None` on wraparound.
pub open spec fn apply_operation(value: u64, delta: u64, op: Operation) -> Option<u64> {
    match op {
        Operation::Add => if value + delta <= u64::MAX {
            Some((value + delta) as u64)
        } else {
            None
        },
        Operation::Subtract => if delta <= value {
            Some((value - delta) as u64)
        } else {
            None
        },
    }
}

/// The error a wrapped-around operation reports.
pub open spec fn operation_error(op: Operation) -> ErrorCode {
    match op {
        Operation::Add => ErrorCode::GenericOverflow,
        Operation::Subtract => ErrorCode::GenericUnderflow,
    }
}

/// What one push does to the stored entries: reject a stale timestamp,
/// coalesce a same-instant update into the latest entry, else append.
pub open spec fn spec_push(cps: Seq<Checkpoint>, delta: u64, op: Operation, ts: u64) -> Result<
    Seq<Checkpoint>,
    ErrorCode,
> {
    if cps.len() > 0 && ts < cps.last().timestamp {
        Err(ErrorCode::InvalidTimestamp)
    } else {
        match apply_operation(latest_value(cps), delta, op) {
            Some(v) => {
                let cp = Checkpoint { timestamp: ts, value: v };
                if cps.len() > 0 && cps.last().timestamp == ts {
                    Ok(cps.update(cps.len() - 1, cp))
                } else {
                    Ok(cps.push(cp))
                }
            },
            None => Err(operation_error(op)),
        }
    }
}

/// The entry a linear scan from the newest end would return: the one with
/// the greatest timestamp at or before `t`.
pub open spec fn spec_find_le(cps: Seq<Checkpoint>, t: u64) -> Option<Checkpoint>
    decreases cps.len(),
{
    if cps.len() == 0 {
        None
    } else if cps.last().timestamp <= t {
        Some(cps.last())
    } else {
        spec_find_le(cps.drop_last(), t)
    }
}

/// In a sorted store, an index whose successors all exceed `t` while its own
/// timestamp does not is exactly what the linear scan returns.
pub proof fn lemma_spec_find_le_at(cps: Seq<Checkpoint>, t: u64, i: int)
    requires
        timestamps_sorted(cps),
        0 <= i < cps.len(),
        cps[i].timestamp <= t,
        forall|j: int| i < j < cps.len() ==> cps[j].timestamp > t,
    ensures
        spec_find_le(cps, t) == Some(cps[i]),
    decreases cps.len(),
{
    if i == cps.len() - 1 {
    } else {
        assert(cps.drop_last() =~= cps.subrange(0, cps.len() - 1));
        lemma_spec_find_le_at(cps.drop_last(), t, i);
    }
}

/// When every entry's timestamp exceeds `t`, the linear scan returns none.
pub proof fn lemma_spec_find_le_none(cps: Seq<Checkpoint>, t: u64)
    requires
        forall|j: int| 0 <= j < cps.len() ==> cps[j].timestamp > t,
    ensures
        spec_find_le(cps, t) == None::<Checkpoint>,
    decreases cps.len(),
{
    if cps.len() > 0 {
        lemma_spec_find_le_none(cps.drop_last(), t);
    }
}

/// Computes the checkpoint one push would store, without touching a store.
pub fn calc_new_checkpoint(
    current_value: u64,
    amount_delta: u64,
    operation: Operation,
    current_timestamp: u64,
) -> (r: Result<Checkpoint, ErrorCode>)
    ensures
        match apply_operation(current_value, amount_delta, operation) {
            Some(v) => r == Ok::<Checkpoint, ErrorCode>(
                Checkpoint { timestamp: current_timestamp, value: v },
            ),
            None => r == Err::<Checkpoint, ErrorCode>(operation_error(operation)),
        },
{
    match operation {
        Operation::Add => {
            if amount_delta <= u64::MAX - current_value {
                Ok(Checkpoint { timestamp: current_timestamp, value: current_value + amount_delta })
            } else {
                Err(ErrorCode::GenericOverflow)
            }
        },
        Operation::Subtract => {
            if amount_delta <= current_value {
                Ok(Checkpoint { timestamp: current_timestamp, value: current_value - amount_delta })
            } else {
                Err(ErrorCode::GenericUnderflow)
            }
        },
    }
}

/// Seeds a freshly created follow-on store: an empty store for `owner`
/// holding the outcome of one first push.
pub fn push_checkpoint_init(
    owner: AccountId,
    amount_delta: u64,
    operation: Operation,
    current_timestamp: u64,
) -> (r: Result<CheckpointData, ErrorCode>)
    ensures
        match r {
            Ok(store) => {
                &&& store.owner == owner
                &&& (match apply_operation(0, amount_delta, operation) {
                    Some(v) => store.checkpoints@ == seq![
                        Checkpoint { timestamp: current_timestamp, value: v },
                    ],
                    None => false,
                })
                &&& store.wf()
            },
            Err(e) => {
                &&& (apply_operation(0, amount_delta, operation) is None)
                &&& e == operation_error(operation)
            },
        },
{
    let mut store = CheckpointData::initialize(owner);
    match store.push_checkpoint(amount_delta, operation, current_timestamp) {
        Ok(_) => Ok(store),
        Err(e) => Err(e),
    }
}

impl CheckpointData {
    /// The store is well formed when its timestamps never decrease.
    pub open spec fn wf(&self) -> bool {
        timestamps_sorted(self.checkpoints@)
    }

    /// A fresh, empty store for `owner`.
    pub fn initialize(owner: AccountId) -> (r: CheckpointData)
        ensures
            r.owner == owner,
            r.checkpoints@.len() == 0,
            r.wf(),
    {
        CheckpointData { owner, checkpoints: Vec::new() }
    }

    /// The number of populated entries.
    pub fn next_index(&self) -> (r: u64)
        requires
            self.checkpoints@.len() <= u64::MAX,
        ensures
            r == self.checkpoints@.len(),
    {
        self.checkpoints.len() as u64
    }

    /// The most recent value, or none for an empty history.
    pub fn latest(&self) -> (r: Option<u64>)
        ensures
            match r {
                Some(v) => self.checkpoints@.len() > 0 && v == latest_value(self.checkpoints@),
                None => self.checkpoints@.len() == 0,
            },
    {
        let n = self.checkpoints.len();
        if n == 0 {
            None
        } else {
            Some(self.checkpoints[n - 1].value)
        }
    }

    /// Applies one `(timestamp, delta)` update: rejects a timestamp before
    /// the latest entry's, coalesces a same-instant update in place, and
    /// otherwise appends, using checked arithmetic throughout.
    pub fn push_checkpoint(
        &mut self,
        amount_delta: u64,
        operation: Operation,
        current_timestamp: u64,
    ) -> (r: Result<DelegateVotesChanged, ErrorCode>)
        ensures
            final(self).owner == old(self).owner,
            match r {
                Ok(ev) => {
                    &&& spec_push(
                        old(self).checkpoints@,
                        amount_delta,
                        operation,
                        current_timestamp,
                    ) == Ok::<Seq<Checkpoint>, ErrorCode>(final(self).checkpoints@)
                    &&& ev.delegate == old(self).owner
                    &&& ev.previous_balance == latest_value(old(self).checkpoints@)
                    &&& Some(ev.new_balance) == apply_operation(
                        latest_value(old(self).checkpoints@),
                        amount_delta,
                        operation,
                    )
                    &&& final(self).checkpoints@.len() >= old(self).checkpoints@.len()
                    &&& latest_value(final(self).checkpoints@) == ev.new_balance
                    &&& final(self).checkpoints@.last().timestamp == current_timestamp
                },
                Err(e) => {
                    &&& *final(self) == *old(self)
                    &&& spec_push(old(self).checkpoints@, amount_delta, operation, current_timestamp)
                        == Err::<Seq<Checkpoint>, ErrorCode>(e)
                },
            },
            old(self).wf() ==> final(self).wf(),
    {
        let n = self.checkpoints.len();
        if n == 0 {
            let cp = match calc_new_checkpoint(0, amount_delta, operation, current_timestamp) {
                Ok(c) => c,
                Err(e) => {
                    return Err(e);
                },
            };
            let owner = self.owner;
            self.checkpoints.push(cp);
            proof {
                if timestamps_sorted(old(self).checkpoints@) {
                    assert(timestamps_sorted(self.checkpoints@));
                }
            }
            Ok(DelegateVotesChanged { delegate: owner, previous_balance: 0, new_balance: cp.value })
        } else {
            let last = self.checkpoints[n - 1];
            if current_timestamp < last.timestamp {
                return Err(ErrorCode::InvalidTimestamp);
            }
            let cp = match calc_new_checkpoint(
                last.value,
                amount_delta,
                operation,
                current_timestamp,
            ) {
                Ok(c) => c,
                Err(e) => {
                    return Err(e);
                },
            };
            let owner = self.owner;
            if last.timestamp == current_timestamp {
                self.checkpoints.set(n - 1, cp);
                proof {
                    if timestamps_sorted(old(self).checkpoints@) {
                        assert forall|i: int, j: int|
                            0 <= i <= j < self.checkpoints@.len() implies self.checkpoints@[i].timestamp
                            <= self.checkpoints@[j].timestamp by {
                            assert(old(self).checkpoints@[i].timestamp <= old(
                                self,
                            ).checkpoints@[j].timestamp);
                        }
                    }
                }
            } else {
                self.checkpoints.push(cp);
                proof {
                    if timestamps_sorted(old(self).checkpoints@) {
                        assert forall|i: int, j: int|
                            0 <= i <= j < self.checkpoints@.len() implies self.checkpoints@[i].timestamp
                            <= self.checkpoints@[j].timestamp by {
                            if j < old(self).checkpoints@.len() {
                                assert(old(self).checkpoints@[i].timestamp <= old(
                                    self,
                                ).checkpoints@[j].timestamp);
                            } else if i < old(self).checkpoints@.len() {
                                assert(old(self).checkpoints@[i].timestamp <= old(
                                    self,
                                ).checkpoints@.last().timestamp);
                            }
                        }
                    }
                }
            }
            Ok(
                DelegateVotesChanged {
                    delegate: owner,
                    previous_balance: last.value,
                    new_balance: cp.value,
                },
            )
        }
    }

    /// Whether a push at `ts` would be in order for this store.
    pub fn accepts_timestamp(&self, ts: u64) -> (r: bool)
        ensures
            r == (self.checkpoints@.len() == 0 || self.checkpoints@.last().timestamp <= ts),
    {
        let n = self.checkpoints.len();
        n == 0 || self.checkpoints[n - 1].timestamp <= ts
    }

    /// The latest recorded value, or zero for an empty history.
    pub fn latest_or_zero(&self) -> (r: u64)
        ensures
            r == latest_value(self.checkpoints@),
    {
        let n = self.checkpoints.len();
        if n == 0 {
            0
        } else {
            self.checkpoints[n - 1].value
        }
    }

    /// Applies a push whose success the caller has already established;
    /// used where several stores must change together or not at all.
    pub fn apply_checkpoint(
        &mut self,
        amount_delta: u64,
        operation: Operation,
        current_timestamp: u64,
    ) -> (ev: DelegateVotesChanged)
        requires
            (spec_push(
                old(self).checkpoints@,
                amount_delta,
                operation,
                current_timestamp,
            ) is Ok),
        ensures
            final(self).owner == old(self).owner,
            spec_push(old(self).checkpoints@, amount_delta, operation, current_timestamp)
                == Ok::<Seq<Checkpoint>, ErrorCode>(final(self).checkpoints@),
            ev.delegate == old(self).owner,
            ev.previous_balance == latest_value(old(self).checkpoints@),
            Some(ev.new_balance) == apply_operation(
                latest_value(old(self).checkpoints@),
                amount_delta,
                operation,
            ),
            latest_value(final(self).checkpoints@) == ev.new_balance,
            final(self).checkpoints@.len() == if old(self).checkpoints@.len() > 0 && old(
                self,
            ).checkpoints@.last().timestamp == current_timestamp {
                old(self).checkpoints@.len() as int
            } else {
                old(self).checkpoints@.len() + 1 as int
            },
            old(self).wf() ==> final(self).wf(),
    {
        match self.push_checkpoint(amount_delta, operation, current_timestamp) {
            Ok(ev) => ev,
            Err(_) => {
                proof {
                    assert(false);
                }
                DelegateVotesChanged { delegate: self.owner, previous_balance: 0, new_balance: 0 }
            },
        }
    }

    /// Binary search for the entry with the greatest timestamp at or before
    /// `target_timestamp`, with its index; none when the whole history is
    /// more recent than the target.
    pub fn find_checkpoint_le(&self, target_timestamp: u64) -> (r: Option<(usize, Checkpoint)>)
        requires
            self.wf(),
        ensures
            match r {
                Some((i, cp)) => {
                    &&& i < self.checkpoints@.len()
                    &&& cp == self.checkpoints@[i as int]
                    &&& cp.timestamp <= target_timestamp
                    &&& forall|j: int|
                        i < j < self.checkpoints@.len()
                            ==> self.checkpoints@[j].timestamp > target_timestamp
                    &&& spec_find_le(self.checkpoints@, target_timestamp) == Some(cp)
                },
                None => {
                    &&& forall|j: int|
                        0 <= j < self.checkpoints@.len()
                            ==> self.checkpoints@[j].timestamp > target_timestamp
                    &&& spec_find_le(self.checkpoints@, target_timestamp) == None::<Checkpoint>
                },
            },
    {
        let mut low: usize = 0;
        let mut high: usize = self.checkpoints.len();
        let mut result: Option<(usize, Checkpoint)> = None;
        while low < high
            invariant
                low <= high <= self.checkpoints@.len(),
                self.wf(),
                forall|j: int|
                    high <= j < self.checkpoints@.len() ==> self.checkpoints@[j].timestamp
                        > target_timestamp,
                match result {
                    Some((i, cp)) => {
                        &&& low > 0
                        &&& i == low - 1
                        &&& cp == self.checkpoints@[i as int]
                        &&& cp.timestamp <= target_timestamp
                    },
                    None => low == 0,
                },
            decreases high - low,
        {
            let mid = low + (high - low) / 2;
            let cp = self.checkpoints[mid];
            if cp.timestamp <= target_timestamp {
                result = Some((mid, cp));
                low = mid + 1;
            } else {
                high = mid;
            }
        }
        proof {
            match result {
                Some((i, cp)) => {
                    lemma_spec_find_le_at(self.checkpoints@, target_timestamp, i as int);
                },
                None => {
                    lemma_spec_find_le_none(self.checkpoints@, target_timestamp);
                },
            }
        }
        result
    }
}

/// Successful pushes keep timestamps non-decreasing: the store's order
/// invariant survives every accepted update.
pub proof fn lemma_push_monotonic(
    cps: Seq<Checkpoint>,
    delta: u64,
    op: Operation,
    ts: u64,
    pushed: Seq<Checkpoint>,
)
    requires
        timestamps_sorted(cps),
        spec_push(cps, delta, op, ts) == Ok::<Seq<Checkpoint>, ErrorCode>(pushed),
    ensures
        timestamps_sorted(pushed),
        pushed.len() > 0,
        pushed.last().timestamp == ts,
{
    let prev = latest_value(cps);
    let v = apply_operation(prev, delta, op).unwrap();
    let cp = Checkpoint { timestamp: ts, value: v };
    if cps.len() > 0 && cps.last().timestamp == ts {
        assert(pushed =~= cps.update(cps.len() - 1, cp));
        assert forall|i: int, j: int| 0 <= i <= j < pushed.len() implies pushed[i].timestamp
            <= pushed[j].timestamp by {
            assert(cps[i].timestamp <= cps[j].timestamp);
        }
    } else {
        assert(pushed =~= cps.push(cp));
        assert forall|i: int, j: int| 0 <= i <= j < pushed.len() implies pushed[i].timestamp
            <= pushed[j].timestamp by {
            if j < cps.len() {
                assert(cps[i].timestamp <= cps[j].timestamp);
            } else if i < cps.len() {
                assert(cps[i].timestamp <= cps.last().timestamp);
            }
        }
    }
}

/// A push whose timestamp precedes the latest entry's is always rejected,
/// and rejection never changes the store.
pub proof fn lemma_push_rejects_stale(cps: Seq<Checkpoint>, delta: u64, op: Operation, ts: u64)
    requires
        cps.len() > 0,
        ts < cps.last().timestamp,
    ensures
        spec_push(cps, delta, op, ts) == Err::<Seq<Checkpoint>, ErrorCode>(
            ErrorCode::InvalidTimestamp,
        ),
{
}

/// Two pushes at one instant leave exactly one entry for that instant,
/// holding the net effect of both, instead of two entries.
pub proof fn lemma_same_instant_coalescing(
    cps: Seq<Checkpoint>,
    d1: u64,
    op1: Operation,
    d2: u64,
    op2: Operation,
    ts: u64,
    s1: Seq<Checkpoint>,
    s2: Seq<Checkpoint>,
)
    requires
        timestamps_sorted(cps),
        spec_push(cps, d1, op1, ts) == Ok::<Seq<Checkpoint>, ErrorCode>(s1),
        spec_push(s1, d2, op2, ts) == Ok::<Seq<Checkpoint>, ErrorCode>(s2),
    ensures
        s2.len() == s1.len(),
        s2.len() == if cps.len() > 0 && cps.last().timestamp == ts {
            cps.len()
        } else {
            cps.len() + 1
        },
        s2.last().timestamp == ts,
        Some(s1.last().value) == apply_operation(latest_value(cps), d1, op1),
        Some(s2.last().value) == apply_operation(s1.last().value, d2, op2),
        s2.drop_last() == s1.drop_last(),
{
    lemma_push_monotonic(cps, d1, op1, ts, s1);
    let v2 = apply_operation(latest_value(s1), d2, op2).unwrap();
    let cp2 = Checkpoint { timestamp: ts, value: v2 };
    assert(s2 =~= s1.update(s1.len() - 1, cp2));
    assert(s2.drop_last() =~= s1.drop_last());
}

} // verus!

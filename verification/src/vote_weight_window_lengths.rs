//! The global, versioned store of vote-weight window lengths: how far back
//! from a proposal's start to sample voting power, itself tracked over time
//! so past proposals keep the window in effect when they were created.

use vstd::prelude::*;
use crate::error::ErrorCode;

verus! {

/// No window may reach further back than this many time units.
pub const MAX_VOTE_WEIGHT_WINDOW_LENGTH: u64 = 850;

/// One `(timestamp, window length)` entry.
#[derive(Clone, Copy, PartialEq, Eq, Structural, Debug)]
pub struct WindowLength {
    pub timestamp: u64,
    pub value: u64,
}

/// The dedicated global store of window lengths, oldest first.
#[derive(Debug)]
pub struct VoteWeightWindowLengths {
    pub window_lengths: Vec<WindowLength>,
}

/// Timestamps never decrease along the store.
pub open spec fn window_timestamps_sorted(wls: Seq<WindowLength>) -> bool {
    forall|i: int, j: int|
        0 <= i <= j < wls.len() ==> wls[i].timestamp <= wls[j].timestamp
}

/// Every stored window length obeys the protocol maximum.
pub open spec fn window_values_bounded(wls: Seq<WindowLength>) -> bool {
    forall|i: int| 0 <= i < wls.len() ==> wls[i].value <= MAX_VOTE_WEIGHT_WINDOW_LENGTH
}

/// The entry a linear scan from the newest end would return: the one with
/// the greatest timestamp at or before `t`.
pub open spec fn spec_find_window_le(wls: Seq<WindowLength>, t: u64) -> Option<WindowLength>
    decreases wls.len(),
{
    if wls.len() == 0 {
        None
    } else if wls.last().timestamp <= t {
        Some(wls.last())
    } else {
        spec_find_window_le(wls.drop_last(), t)
    }
}

pub proof fn lemma_spec_find_window_le_at(wls: Seq<WindowLength>, t: u64, i: int)
    requires
        window_timestamps_sorted(wls),
        0 <= i < wls.len(),
        wls[i].timestamp <= t,
        forall|j: int| i < j < wls.len() ==> wls[j].timestamp > t,
    ensures
        spec_find_window_le(wls, t) == Some(wls[i]),
    decreases wls.len(),
{
    if i == wls.len() - 1 {
    } else {
        assert(wls.drop_last() =~= wls.subrange(0, wls.len() - 1));
        lemma_spec_find_window_le_at(wls.drop_last(), t, i);
    }
}

pub proof fn lemma_spec_find_window_le_none(wls: Seq<WindowLength>, t: u64)
    requires
        forall|j: int| 0 <= j < wls.len() ==> wls[j].timestamp > t,
    ensures
        spec_find_window_le(wls, t) == None::<WindowLength>,
    decreases wls.len(),
{
    if wls.len() > 0 {
        lemma_spec_find_window_le_none(wls.drop_last(), t);
    }
}

impl VoteWeightWindowLengths {
    /// Sorted timestamps, and every value within the protocol maximum.
    pub open spec fn wf(&self) -> bool {
        &&& window_timestamps_sorted(self.window_lengths@)
        &&& window_values_bounded(self.window_lengths@)
    }

    /// The number of populated entries.
    pub fn next_index(&self) -> (r: u64)
        requires
            self.window_lengths@.len() <= u64::MAX,
        ensures
            r == self.window_lengths@.len(),
    {
        self.window_lengths.len() as u64
    }

    /// Binary search for the window length in effect at or before
    /// `target_timestamp`.
    pub fn find_window_length_le(&self, target_timestamp: u64) -> (r: Option<(usize, WindowLength)>)
        requires
            self.wf(),
        ensures
            match r {
                Some((i, wl)) => {
                    &&& i < self.window_lengths@.len()
                    &&& wl == self.window_lengths@[i as int]
                    &&& wl.timestamp <= target_timestamp
                    &&& wl.value <= MAX_VOTE_WEIGHT_WINDOW_LENGTH
                    &&& forall|j: int|
                        i < j < self.window_lengths@.len()
                            ==> self.window_lengths@[j].timestamp > target_timestamp
                    &&& spec_find_window_le(self.window_lengths@, target_timestamp) == Some(wl)
                },
                None => {
                    &&& forall|j: int|
                        0 <= j < self.window_lengths@.len()
                            ==> self.window_lengths@[j].timestamp > target_timestamp
                    &&& spec_find_window_le(self.window_lengths@, target_timestamp)
                        == None::<WindowLength>
                },
            },
    {
        let mut low: usize = 0;
        let mut high: usize = self.window_lengths.len();
        let mut result: Option<(usize, WindowLength)> = None;
        while low < high
            invariant
                low <= high <= self.window_lengths@.len(),
                self.wf(),
                forall|j: int|
                    high <= j < self.window_lengths@.len() ==> self.window_lengths@[j].timestamp
                        > target_timestamp,
                match result {
                    Some((i, wl)) => {
                        &&& low > 0
                        &&& i == low - 1
                        &&& wl == self.window_lengths@[i as int]
                        &&& wl.timestamp <= target_timestamp
                    },
                    None => low == 0,
                },
            decreases high - low,
        {
            let mid = low + (high - low) / 2;
            let wl = self.window_lengths[mid];
            if wl.timestamp <= target_timestamp {
                result = Some((mid, wl));
                low = mid + 1;
            } else {
                high = mid;
            }
        }
        proof {
            match result {
                Some((i, wl)) => {
                    lemma_spec_find_window_le_at(
                        self.window_lengths@,
                        target_timestamp,
                        i as int,
                    );
                },
                None => {
                    lemma_spec_find_window_le_none(self.window_lengths@, target_timestamp);
                },
            }
        }
        result
    }

    /// Records a new window length: rejects one over the protocol maximum
    /// or one timestamped before the latest entry, coalesces a same-instant
    /// update in place, and otherwise appends.
    pub fn push_new_window_length(
        &mut self,
        current_timestamp: u64,
        new_window_length_value: u64,
    ) -> (r: Result<(), ErrorCode>)
        ensures
            match r {
                Ok(()) => ({
                    let wl = WindowLength {
                        timestamp: current_timestamp,
                        value: new_window_length_value,
                    };
                    let before = old(self).window_lengths@;
                    &&& new_window_length_value <= MAX_VOTE_WEIGHT_WINDOW_LENGTH
                    &&& (if before.len() > 0 && before.last().timestamp == current_timestamp {
                        final(self).window_lengths@ == before.update(before.len() - 1, wl)
                    } else {
                        final(self).window_lengths@ == before.push(wl)
                    })
                }),
                Err(e) => {
                    &&& *final(self) == *old(self)
                    &&& if new_window_length_value > MAX_VOTE_WEIGHT_WINDOW_LENGTH {
                        e == ErrorCode::ExceedsMaxAllowableVoteWeightWindowLength
                    } else {
                        e == ErrorCode::InvalidTimestamp && old(self).window_lengths@.len() > 0
                            && current_timestamp < old(self).window_lengths@.last().timestamp
                    }
                },
            },
            old(self).wf() ==> final(self).wf(),
    {
        if new_window_length_value > MAX_VOTE_WEIGHT_WINDOW_LENGTH {
            return Err(ErrorCode::ExceedsMaxAllowableVoteWeightWindowLength);
        }
        let n = self.window_lengths.len();
        let wl = WindowLength { timestamp: current_timestamp, value: new_window_length_value };
        if n == 0 {
            self.window_lengths.push(wl);
            return Ok(());
        }
        let last = self.window_lengths[n - 1];
        if current_timestamp < last.timestamp {
            return Err(ErrorCode::InvalidTimestamp);
        }
        if last.timestamp == current_timestamp {
            self.window_lengths.set(n - 1, wl);
            proof {
                if old(self).wf() {
                    assert forall|i: int, j: int|
                        0 <= i <= j < self.window_lengths@.len() implies self.window_lengths@[i].timestamp
                        <= self.window_lengths@[j].timestamp by {
                        assert(old(self).window_lengths@[i].timestamp <= old(
                            self,
                        ).window_lengths@[j].timestamp);
                    }
                }
            }
        } else {
            self.window_lengths.push(wl);
            proof {
                if old(self).wf() {
                    assert forall|i: int, j: int|
                        0 <= i <= j < self.window_lengths@.len() implies self.window_lengths@[i].timestamp
                        <= self.window_lengths@[j].timestamp by {
                        if j < old(self).window_lengths@.len() {
                            assert(old(self).window_lengths@[i].timestamp <= old(
                                self,
                            ).window_lengths@[j].timestamp);
                        } else if i < old(self).window_lengths@.len() {
                            assert(old(self).window_lengths@[i].timestamp <= old(
                                self,
                            ).window_lengths@.last().timestamp);
                        }
                    }
                }
            }
        }
        Ok(())
    }
}

/// Builds the store's first entry, rejecting an over-long window.
pub fn init_window_length(current_timestamp: u64, window_length_value: u64) -> (r: Result<
    VoteWeightWindowLengths,
    ErrorCode,
>)
    ensures
        match r {
            Ok(store) => {
                &&& window_length_value <= MAX_VOTE_WEIGHT_WINDOW_LENGTH
                &&& store.window_lengths@ =~= seq![
                    WindowLength { timestamp: current_timestamp, value: window_length_value },
                ]
                &&& store.wf()
            },
            Err(e) => {
                &&& e == ErrorCode::ExceedsMaxAllowableVoteWeightWindowLength
                &&& window_length_value > MAX_VOTE_WEIGHT_WINDOW_LENGTH
            },
        },
{
    if window_length_value > MAX_VOTE_WEIGHT_WINDOW_LENGTH {
        return Err(ErrorCode::ExceedsMaxAllowableVoteWeightWindowLength);
    }
    let mut window_lengths: Vec<WindowLength> = Vec::new();
    window_lengths.push(WindowLength { timestamp: current_timestamp, value: window_length_value });
    Ok(VoteWeightWindowLengths { window_lengths })
}

} // verus!

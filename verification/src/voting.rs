//! Vote casting against a windowed snapshot of voting power: the weight
//! used is the minimum value the voter held at any checkpoint inside the
//! window, and a per-voter record caps the total weight cast.

use vstd::prelude::*;
use crate::checkpoints::Checkpoint;
use crate::checkpoints::CheckpointData;
use crate::checkpoints::timestamps_sorted;
use crate::error::ErrorCode;
use crate::ids::AccountId;
use crate::ids::ProposalId;
use crate::proposal::ProposalData;
use crate::proposal::ProposalVotersWeightCast;
use crate::vote_weight_window_lengths::VoteWeightWindowLengths;
use crate::vote_weight_window_lengths::WindowLength;
use crate::vote_weight_window_lengths::spec_find_window_le;

verus! {

/// A successfully cast vote.
#[derive(Clone, Copy, PartialEq, Eq, Structural, Debug)]
pub struct VoteCast {
    pub voter: AccountId,
    pub proposal_id: ProposalId,
    pub weight: u64,
    pub against_votes: u64,
    pub for_votes: u64,
    pub abstain_votes: u64,
}

/// The voter's history as one sequence: a full first store contributes all
/// but its final entry, whose copy opens the follow-on store.
pub open spec fn effective_checkpoints(
    cur: Seq<Checkpoint>,
    next: Option<Seq<Checkpoint>>,
    max: int,
) -> Seq<Checkpoint> {
    if cur.len() == max {
        cur.take(max - 1) + (match next {
            Some(n) => n,
            None => Seq::<Checkpoint>::empty(),
        })
    } else {
        cur
    }
}

/// The greatest index whose timestamp is at or before `t`, or -1.
pub open spec fn last_le_index(cps: Seq<Checkpoint>, t: u64) -> int
    decreases cps.len(),
{
    if cps.len() == 0 {
        -1
    } else if cps.last().timestamp <= t {
        cps.len() - 1
    } else {
        last_le_index(cps.drop_last(), t)
    }
}

/// In a sorted history, an index at or before `t` whose successors all
/// exceed `t` is the last index at or before `t`.
pub proof fn lemma_last_le_index_at(cps: Seq<Checkpoint>, t: u64, i: int)
    requires
        timestamps_sorted(cps),
        0 <= i < cps.len(),
        cps[i].timestamp <= t,
        forall|j: int| i < j < cps.len() ==> cps[j].timestamp > t,
    ensures
        last_le_index(cps, t) == i,
    decreases cps.len(),
{
    if i == cps.len() - 1 {
    } else {
        assert(cps.drop_last() =~= cps.subrange(0, cps.len() - 1));
        lemma_last_le_index_at(cps.drop_last(), t, i);
    }
}

/// When every timestamp exceeds `t`, no index is at or before it.
pub proof fn lemma_last_le_index_none(cps: Seq<Checkpoint>, t: u64)
    requires
        forall|j: int| 0 <= j < cps.len() ==> cps[j].timestamp > t,
    ensures
        last_le_index(cps, t) == -1,
    decreases cps.len(),
{
    if cps.len() > 0 {
        lemma_last_le_index_none(cps.drop_last(), t);
    }
}

/// The least value among the checkpoints with indices in `[lo, hi)`.
pub open spec fn min_value_upto(cps: Seq<Checkpoint>, lo: int, hi: int) -> u64
    decreases hi - lo,
{
    if hi <= lo + 1 {
        cps[lo].value
    } else {
        let rest = min_value_upto(cps, lo, hi - 1);
        if cps[hi - 1].value < rest {
            cps[hi - 1].value
        } else {
            rest
        }
    }
}

/// The windowed weight over a possibly segmented history: the entry at or
/// before the window start, then the minimum value up to the last entry at
/// or before the vote start, traversing into the follow-on store when the
/// first one is full.
pub open spec fn window_weight(
    cur: Seq<Checkpoint>,
    next: Option<Seq<Checkpoint>>,
    max: int,
    window_start: u64,
    vote_start: u64,
) -> Result<u64, ErrorCode> {
    let f = last_le_index(cur, window_start);
    if f < 0 {
        Err(ErrorCode::NoWeight)
    } else if f + 1 == max {
        Err(ErrorCode::CheckpointOutOfBounds)
    } else if cur.len() == max && next is None && cur[max - 2].timestamp <= vote_start {
        Err(ErrorCode::MissingNextCheckpointDataAccount)
    } else {
        let eff = effective_checkpoints(cur, next, max);
        Ok(min_value_upto(eff, f, last_le_index(eff, vote_start) + 1))
    }
}

/// The weight a vote at `vote_start` would use: the window length in effect
/// at the vote's start, then the windowed minimum of the voter's history.
pub open spec fn spec_vote_weight(
    wls: Seq<WindowLength>,
    cur: Seq<Checkpoint>,
    next: Option<Seq<Checkpoint>>,
    max: int,
    vote_start: u64,
) -> Result<u64, ErrorCode> {
    match spec_find_window_le(wls, vote_start) {
        None => Err(ErrorCode::WindowLengthNotFound),
        Some(wl) => {
            if wl.value > vote_start {
                Err(ErrorCode::GenericUnderflow)
            } else {
                window_weight(cur, next, max, (vote_start - wl.value) as u64, vote_start)
            }
        },
    }
}

/// The view of an optional follow-on store.
pub open spec fn next_view(next: Option<&CheckpointData>) -> Option<Seq<Checkpoint>> {
    match next {
        Some(n) => Some(n.checkpoints@),
        None => None,
    }
}

/// The follow-on store continues the first: it is sorted, and its first
/// entry is no older than the last entry the full first store contributes.
pub open spec fn segments_continuous(
    cur: Seq<Checkpoint>,
    next: Option<Seq<Checkpoint>>,
    max: int,
) -> bool {
    match next {
        Some(n) => timestamps_sorted(n) && (cur.len() == max && n.len() > 0 && max >= 2 ==> cur[max
            - 2].timestamp <= n[0].timestamp),
        None => true,
    }
}

/// The effective history of continuous segments is itself sorted.
pub proof fn lemma_effective_sorted(cur: Seq<Checkpoint>, next: Option<Seq<Checkpoint>>, max: int)
    requires
        timestamps_sorted(cur),
        segments_continuous(cur, next, max),
        max >= 1,
    ensures
        timestamps_sorted(effective_checkpoints(cur, next, max)),
{
    let eff = effective_checkpoints(cur, next, max);
    if cur.len() == max {
        let n = match next {
            Some(n) => n,
            None => Seq::<Checkpoint>::empty(),
        };
        assert forall|i: int, j: int| 0 <= i <= j < eff.len() implies eff[i].timestamp
            <= eff[j].timestamp by {
            if j < max - 1 {
                assert(cur[i].timestamp <= cur[j].timestamp);
            } else if i >= max - 1 {
                assert(n[i - (max - 1)].timestamp <= n[j - (max - 1)].timestamp);
            } else {
                assert(eff[i] == cur[i]);
                assert(eff[j] == n[j - (max - 1)]);
                assert(cur[i].timestamp <= cur[max - 2].timestamp);
                assert(cur[max - 2].timestamp <= n[0].timestamp);
                assert(n[0].timestamp <= n[j - (max - 1)].timestamp);
            }
        }
    }
}

/// Computes the voter's windowed weight: the checkpoint at or before the
/// window start, then the minimum value among all checkpoints up to the
/// vote start, traversing into the follow-on store when the first is full.
pub fn compute_window_weight(
    voter_checkpoints: &CheckpointData,
    voter_checkpoints_next: Option<&CheckpointData>,
    window_start: u64,
    vote_start: u64,
    max_checkpoints_account_limit: u32,
) -> (r: Result<u64, ErrorCode>)
    requires
        voter_checkpoints.wf(),
        window_start <= vote_start,
        segments_continuous(
            voter_checkpoints.checkpoints@,
            next_view(voter_checkpoints_next),
            max_checkpoints_account_limit as int,
        ),
    ensures
        r == window_weight(
            voter_checkpoints.checkpoints@,
            next_view(voter_checkpoints_next),
            max_checkpoints_account_limit as int,
            window_start,
            vote_start,
        ),
{
    let ghost cur = voter_checkpoints.checkpoints@;
    let ghost nxt = next_view(voter_checkpoints_next);
    let ghost maxg = max_checkpoints_account_limit as int;
    let ghost eff = effective_checkpoints(cur, nxt, maxg);

    let cur_len = voter_checkpoints.checkpoints.len();
    let (found_index, found_cp) = match voter_checkpoints.find_checkpoint_le(window_start) {
        Some(x) => x,
        None => {
            proof {
                lemma_last_le_index_none(cur, window_start);
            }
            return Err(ErrorCode::NoWeight);
        },
    };
    proof {
        lemma_last_le_index_at(cur, window_start, found_index as int);
    }
    let max_limit = max_checkpoints_account_limit as usize;
    if found_index + 1 == max_limit {
        return Err(ErrorCode::CheckpointOutOfBounds);
    }
    let is_full = cur_len == max_limit;
    proof {
        if maxg >= 1 {
            lemma_effective_sorted(cur, nxt, maxg);
        } else {
            assert(eff == cur);
        }
        assert(forall|j: int|
            0 <= j < (if is_full {
                maxg - 1
            } else {
                cur.len() as int
            }) ==> eff[j] == cur[j]);
    }

    let mut total_weight = found_cp.value;
    let bound_a = if is_full {
        max_limit - 1
    } else {
        cur_len
    };
    let mut k = found_index + 1;
    while k < bound_a && voter_checkpoints.checkpoints[k].timestamp <= vote_start
        invariant
            voter_checkpoints.wf(),
            cur == voter_checkpoints.checkpoints@,
            nxt == next_view(voter_checkpoints_next),
            eff == effective_checkpoints(cur, nxt, maxg),
            maxg == max_checkpoints_account_limit as int,
            cur_len == cur.len(),
            is_full <==> cur.len() == maxg,
            bound_a == if is_full {
                maxg - 1
            } else {
                cur.len() as int
            },
            0 <= found_index < cur.len(),
            found_index + 1 != maxg,
            found_index < bound_a,
            found_index < k <= bound_a,
            forall|j: int| found_index < j < k ==> cur[j].timestamp <= vote_start,
            forall|j: int| 0 <= j < bound_a ==> eff[j] == cur[j],
            total_weight == min_value_upto(eff, found_index as int, k as int),
        decreases bound_a - k,
    {
        let v = voter_checkpoints.checkpoints[k].value;
        if v < total_weight {
            total_weight = v;
        }
        k = k + 1;
    }

    let ghost mut cutoff: int = k as int;
    if k < bound_a {
        // Stopped at the first in-window entry past the vote start.
        proof {
            assert(cur[k as int].timestamp > vote_start);
        }
    } else if is_full {
        // Ran off the contributed part of a full store: the traversal must
        // continue in the follow-on store.
        proof {
            assert(maxg >= 2);
            assert(cur[maxg - 2].timestamp <= vote_start) by {
                if found_index as int == maxg - 2 {
                    assert(cur[maxg - 2].timestamp <= window_start);
                } else {
                    assert(found_index < maxg - 2);
                }
            }
        }
        let next_store = match voter_checkpoints_next {
            Some(n) => n,
            None => {
                return Err(ErrorCode::MissingNextCheckpointDataAccount);
            },
        };
        let next_len = next_store.checkpoints.len();
        let mut j: usize = 0;
        while j < next_len && next_store.checkpoints[j].timestamp <= vote_start
            invariant
                nxt == next_view(voter_checkpoints_next),
                next_view(voter_checkpoints_next) == Some(next_store.checkpoints@),
                eff == effective_checkpoints(cur, nxt, maxg),
                maxg == max_checkpoints_account_limit as int,
                cur.len() == maxg,
                maxg >= 2,
                0 <= found_index < maxg - 1,
                next_len == next_store.checkpoints@.len(),
                eff.len() == maxg - 1 + next_len,
                forall|i: int| 0 <= i < next_len ==> eff[maxg - 1 + i] == next_store.checkpoints@[i],
                0 <= j <= next_len,
                forall|i: int|
                    0 <= i < j ==> next_store.checkpoints@[i].timestamp <= vote_start,
                total_weight == min_value_upto(eff, found_index as int, maxg - 1 + j),
            decreases next_len - j,
        {
            let v = next_store.checkpoints[j].value;
            if v < total_weight {
                total_weight = v;
            }
            j = j + 1;
        }
        proof {
            cutoff = maxg - 1 + j;
        }
    }

    proof {
        // The loop's stopping point is exactly one past the last in-window
        // entry of the effective history.
        assert(eff[found_index as int].timestamp <= vote_start);
        assert(forall|i: int| found_index < i < cutoff ==> eff[i].timestamp <= vote_start);
        assert(forall|i: int| cutoff <= i < eff.len() ==> eff[i].timestamp > vote_start);
        lemma_last_le_index_at(eff, vote_start, cutoff - 1);
        assert(window_weight(cur, nxt, maxg, window_start, vote_start) == Ok::<u64, ErrorCode>(
            total_weight,
        ));
    }

    Ok(total_weight)
}

/// Casts a vote: looks up the window length in effect at the proposal's
/// start, takes the minimum of the voter's checkpoint values across the
/// window, lazily opens the voter's cast record, and adds the three vote
/// components to the tallies, all of it atomically or not at all.
pub fn cast_vote(
    proposal: &mut ProposalData,
    proposal_voters_weight_cast: &mut ProposalVotersWeightCast,
    voter_checkpoints: &CheckpointData,
    voter_checkpoints_next: Option<&CheckpointData>,
    vote_weight_window_lengths: &VoteWeightWindowLengths,
    proposal_id: ProposalId,
    voter: AccountId,
    against_votes: u64,
    for_votes: u64,
    abstain_votes: u64,
    current_timestamp: u64,
    max_checkpoints_account_limit: u32,
) -> (r: Result<VoteCast, ErrorCode>)
    requires
        voter_checkpoints.wf(),
        vote_weight_window_lengths.wf(),
        segments_continuous(
            voter_checkpoints.checkpoints@,
            next_view(voter_checkpoints_next),
            max_checkpoints_account_limit as int,
        ),
    ensures
        ({
            let vs = old(proposal).vote_start;
            let weight = spec_vote_weight(
                vote_weight_window_lengths.window_lengths@,
                voter_checkpoints.checkpoints@,
                next_view(voter_checkpoints_next),
                max_checkpoints_account_limit as int,
                vs,
            );
            let already = old(proposal_voters_weight_cast).value;
            match r {
                Ok(ev) => {
                    &&& current_timestamp > vs
                    &&& weight == Ok::<u64, ErrorCode>(ev.weight)
                    &&& ev.weight > 0
                    &&& already < ev.weight
                    &&& already + against_votes + for_votes + abstain_votes <= ev.weight
                    &&& old(proposal).against_votes + against_votes <= u64::MAX
                    &&& old(proposal).for_votes + for_votes <= u64::MAX
                    &&& old(proposal).abstain_votes + abstain_votes <= u64::MAX
                    &&& final(proposal_voters_weight_cast).value == already + against_votes
                        + for_votes + abstain_votes
                    &&& (already == 0 ==> final(proposal_voters_weight_cast).proposal_id
                        == proposal_id && final(proposal_voters_weight_cast).voter == voter)
                    &&& (already != 0 ==> final(proposal_voters_weight_cast).proposal_id == old(
                        proposal_voters_weight_cast,
                    ).proposal_id && final(proposal_voters_weight_cast).voter == old(
                        proposal_voters_weight_cast,
                    ).voter)
                    &&& *final(proposal) == (ProposalData {
                        against_votes: (old(proposal).against_votes + against_votes) as u64,
                        for_votes: (old(proposal).for_votes + for_votes) as u64,
                        abstain_votes: (old(proposal).abstain_votes + abstain_votes) as u64,
                        ..*old(proposal)
                    })
                    &&& ev == (VoteCast {
                        voter,
                        proposal_id,
                        weight: ev.weight,
                        against_votes,
                        for_votes,
                        abstain_votes,
                    })
                },
                Err(e) => {
                    &&& *final(proposal) == *old(proposal)
                    &&& *final(proposal_voters_weight_cast) == *old(proposal_voters_weight_cast)
                    &&& if current_timestamp <= vs {
                        e == ErrorCode::ProposalInactive
                    } else {
                        match weight {
                            Err(we) => e == we,
                            Ok(w) => {
                                if w == 0 {
                                    e == ErrorCode::NoWeight
                                } else if already >= w {
                                    e == ErrorCode::AllWeightCast
                                } else if already + against_votes + for_votes + abstain_votes > w {
                                    e == ErrorCode::VoteWouldExceedWeight
                                } else {
                                    &&& e == ErrorCode::GenericOverflow
                                    &&& (old(proposal).against_votes + against_votes > u64::MAX
                                        || old(proposal).for_votes + for_votes > u64::MAX || old(
                                        proposal,
                                    ).abstain_votes + abstain_votes > u64::MAX)
                                }
                            },
                        }
                    }
                },
            }
        }),
{
    let vote_start = proposal.vote_start;
    if current_timestamp <= vote_start {
        return Err(ErrorCode::ProposalInactive);
    }
    let wl = match vote_weight_window_lengths.find_window_length_le(vote_start) {
        Some((_i, wl)) => wl,
        None => {
            return Err(ErrorCode::WindowLengthNotFound);
        },
    };
    if wl.value > vote_start {
        return Err(ErrorCode::GenericUnderflow);
    }
    let window_start = vote_start - wl.value;

    let total_weight = match compute_window_weight(
        voter_checkpoints,
        voter_checkpoints_next,
        window_start,
        vote_start,
        max_checkpoints_account_limit,
    ) {
        Ok(w) => w,
        Err(e) => {
            return Err(e);
        },
    };

    if total_weight == 0 {
        return Err(ErrorCode::NoWeight);
    }

    let already = proposal_voters_weight_cast.value;
    if already >= total_weight {
        return Err(ErrorCode::AllWeightCast);
    }
    // The whole update is computed first, so that a late failure leaves
    // nothing half applied.
    let afa = match checked_add3(against_votes, for_votes, abstain_votes) {
        Some(v) => v,
        None => {
            return Err(ErrorCode::VoteWouldExceedWeight);
        },
    };
    let new_weight = if afa <= u64::MAX - already {
        already + afa
    } else {
        return Err(ErrorCode::VoteWouldExceedWeight);
    };
    if new_weight > total_weight {
        return Err(ErrorCode::VoteWouldExceedWeight);
    }
    let new_against = if against_votes <= u64::MAX - proposal.against_votes {
        proposal.against_votes + against_votes
    } else {
        return Err(ErrorCode::GenericOverflow);
    };
    let new_for = if for_votes <= u64::MAX - proposal.for_votes {
        proposal.for_votes + for_votes
    } else {
        return Err(ErrorCode::GenericOverflow);
    };
    let new_abstain = if abstain_votes <= u64::MAX - proposal.abstain_votes {
        proposal.abstain_votes + abstain_votes
    } else {
        return Err(ErrorCode::GenericOverflow);
    };

    if already == 0 {
        proposal_voters_weight_cast.initialize(proposal_id, voter);
    }
    proposal_voters_weight_cast.set(new_weight);
    proposal.against_votes = new_against;
    proposal.for_votes = new_for;
    proposal.abstain_votes = new_abstain;

    Ok(
        VoteCast {
            voter,
            proposal_id,
            weight: total_weight,
            against_votes,
            for_votes,
            abstain_votes,
        },
    )
}

/// The sum of three vote components, or none on wraparound.
fn checked_add3(a: u64, b: u64, c: u64) -> (r: Option<u64>)
    ensures
        match r {
            Some(v) => v == a + b + c,
            None => a + b + c > u64::MAX,
        },
{
    if b <= u64::MAX - a {
        let ab = a + b;
        if c <= u64::MAX - ab {
            Some(ab + c)
        } else {
            None
        }
    } else {
        None
    }
}

} // verus!

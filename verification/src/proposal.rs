//! Per-proposal vote tallies and the per-voter record of weight already
//! cast, which caps voting at the voter's windowed snapshot weight.

use vstd::prelude::*;
use crate::error::ErrorCode;
use crate::ids::AccountId;
use crate::ids::ProposalId;

verus! {

/// A proposal's identity, start time, and running tallies. A zero
/// `vote_start` means "not yet created".
#[derive(Clone, Copy, PartialEq, Eq, Structural, Debug)]
pub struct ProposalData {
    pub id: ProposalId,
    pub against_votes: u64,
    pub for_votes: u64,
    pub abstain_votes: u64,
    pub vote_start: u64,
}

/// How much weight one voter has already spent on one proposal.
#[derive(Clone, Copy, PartialEq, Eq, Structural, Debug)]
pub struct ProposalVotersWeightCast {
    pub proposal_id: ProposalId,
    pub voter: AccountId,
    pub value: u64,
}

impl ProposalData {
    /// An unwritten slot: all zeroes, so `vote_start == 0` marks it free.
    pub fn zeroed() -> (r: ProposalData)
        ensures
            r.vote_start == 0,
            r.against_votes == 0,
            r.for_votes == 0,
            r.abstain_votes == 0,
    {
        ProposalData {
            id: ProposalId { part1: 0, part2: 0, part3: 0, part4: 0 },
            against_votes: 0,
            for_votes: 0,
            abstain_votes: 0,
            vote_start: 0,
        }
    }

    /// Creates the proposal once: a slot whose `vote_start` is already set
    /// rejects re-submission, leaving everything unchanged.
    pub fn add_proposal(&mut self, proposal_id: ProposalId, vote_start: u64) -> (r: Result<
        (),
        ErrorCode,
    >)
        ensures
            match r {
                Ok(()) => {
                    &&& old(self).vote_start == 0
                    &&& *final(self) == (ProposalData {
                        id: proposal_id,
                        against_votes: 0,
                        for_votes: 0,
                        abstain_votes: 0,
                        vote_start,
                    })
                },
                Err(e) => {
                    &&& e == ErrorCode::ProposalAlreadyExists
                    &&& old(self).vote_start != 0
                    &&& *final(self) == *old(self)
                },
            },
    {
        if self.vote_start != 0 {
            return Err(ErrorCode::ProposalAlreadyExists);
        }
        self.id = proposal_id;
        self.against_votes = 0;
        self.for_votes = 0;
        self.abstain_votes = 0;
        self.vote_start = vote_start;
        Ok(())
    }

    /// The identity and current tallies.
    pub fn proposal_votes(&self) -> (r: Result<Option<(ProposalId, u64, u64, u64)>, ErrorCode>)
        ensures
            r == Ok::<Option<(ProposalId, u64, u64, u64)>, ErrorCode>(
                Some((self.id, self.against_votes, self.for_votes, self.abstain_votes)),
            ),
    {
        Ok(Some((self.id, self.against_votes, self.for_votes, self.abstain_votes)))
    }
}

impl ProposalVotersWeightCast {
    /// Starts a voter's record for a proposal at zero weight cast.
    pub fn initialize(&mut self, proposal_id: ProposalId, voter: AccountId)
        ensures
            *final(self) == (ProposalVotersWeightCast { proposal_id, voter, value: 0 }),
    {
        self.proposal_id = proposal_id;
        self.voter = voter;
        self.value = 0;
    }

    /// Replaces the recorded cast weight.
    pub fn set(&mut self, new_value: u64)
        ensures
            *final(self) == (ProposalVotersWeightCast { value: new_value, ..*old(self) }),
    {
        self.value = new_value;
    }
}

} // verus!

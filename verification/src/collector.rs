//! Admission of cross-chain proposals: the collector's metadata, the exact
//! byte-level parsers for the query request and response payloads, and the
//! whole admission decision — guardian quorum first, then every payload
//! check, then the one-time creation of the proposal record.

use vstd::prelude::*;
use crate::codec::be_value;
use crate::codec::read_u64_be;
use crate::error::ErrorCode;
use crate::error::ProposalWormholeMessageError;
use crate::error::QueriesSolanaVerifyError;
use crate::error::StakingError;
use crate::ids::AccountId;
use crate::ids::ProposalId;
use crate::proposal::ProposalData;
use crate::quorum::GuardianSignatures;
use crate::quorum::WormholeGuardianSet;
use crate::quorum::spec_verify_signatures;
use crate::quorum::verify_signatures;

verus! {

/// A freshly admitted proposal.
#[derive(Clone, Copy, PartialEq, Eq, Structural, Debug)]
pub struct ProposalCreated {
    pub proposal_id: ProposalId,
    pub vote_start: u64,
}

/// What an admitted response's result bytes carry.
#[derive(Clone, Copy, PartialEq, Eq, Structural, Debug)]
pub struct ProposalDataFromEthResponse {
    pub proposal_id: ProposalId,
    pub vote_start: u64,
}

/// What the query's calldata carries: a 4-byte selector and a proposal id.
#[derive(Debug)]
pub struct ProposalQueryRequestData {
    pub signature: Vec<u8>,
    pub proposal_id: ProposalId,
}

/// The collector of cross-chain proposal metadata.
#[derive(Debug)]
pub struct SpokeMetadataCollector {
    pub hub_chain_id: u16,
    pub hub_proposal_metadata: Vec<u8>,
    pub wormhole_core: AccountId,
    pub updates_controlled_by_governance: bool,
}

/// One queried contract call: target address and calldata.
#[derive(Debug)]
pub struct EthCallData {
    pub to: Vec<u8>,
    pub data: Vec<u8>,
}

/// A finality-qualified contract-call query.
#[derive(Debug)]
pub struct EthCallWithFinalityData {
    pub finality: Vec<u8>,
    pub call_data: Vec<EthCallData>,
}

/// The query variants the admission path distinguishes.
#[derive(Debug)]
pub enum ChainSpecificQuery {
    EthCallWithFinalityQueryRequest(EthCallWithFinalityData),
    Unsupported,
}

/// One per-chain query of the decoded request.
#[derive(Debug)]
pub struct PerChainQueryRequest {
    pub query: ChainSpecificQuery,
}

/// The results of a finality-qualified contract-call response.
#[derive(Debug)]
pub struct EthCallWithFinalityResponse {
    pub results: Vec<Vec<u8>>,
}

/// The response variants the admission path distinguishes.
#[derive(Debug)]
pub enum ChainSpecificResponse {
    EthCallWithFinalityQueryResponse(EthCallWithFinalityResponse),
    Unsupported,
}

/// One per-chain response of the decoded payload.
#[derive(Debug)]
pub struct PerChainResponse {
    pub chain_id: u16,
    pub response: ChainSpecificResponse,
}

/// The decoded form of a query response payload.
#[derive(Debug)]
pub struct QueryResponseData {
    pub requests: Vec<PerChainQueryRequest>,
    pub responses: Vec<PerChainResponse>,
}

/// The ASCII bytes of the required finality level.
pub open spec fn finalized_ascii() -> Seq<u8> {
    seq![102u8, 105u8, 110u8, 97u8, 108u8, 105u8, 122u8, 101u8, 100u8]
}

/// The required finality level, "finalized", as bytes.
pub fn finalized_bytes() -> (r: Vec<u8>)
    ensures
        r@ == finalized_ascii(),
{
    let mut r: Vec<u8> = Vec::new();
    r.push(102);
    r.push(105);
    r.push(110);
    r.push(97);
    r.push(108);
    r.push(105);
    r.push(122);
    r.push(101);
    r.push(100);
    proof {
        assert(r@ =~= finalized_ascii());
    }
    r
}

/// The required 4-byte function selector of the metadata getter.
pub open spec fn proposal_selector() -> Seq<u8> {
    seq![0xebu8, 0x9bu8, 0x98u8, 0x38u8]
}

/// The required function selector as bytes.
pub fn proposal_selector_bytes() -> (r: Vec<u8>)
    ensures
        r@ == proposal_selector(),
{
    let mut r: Vec<u8> = Vec::new();
    r.push(0xeb);
    r.push(0x9b);
    r.push(0x98);
    r.push(0x38);
    proof {
        assert(r@ =~= proposal_selector());
    }
    r
}

impl SpokeMetadataCollector {
    /// A fresh collector, with metadata updates governance-controlled.
    pub fn initialize(
        hub_chain_id: u16,
        hub_proposal_metadata: Vec<u8>,
        wormhole_core: AccountId,
    ) -> (r: SpokeMetadataCollector)
        ensures
            r.hub_chain_id == hub_chain_id,
            r.hub_proposal_metadata@ == hub_proposal_metadata@,
            r.wormhole_core == wormhole_core,
            r.updates_controlled_by_governance,
    {
        SpokeMetadataCollector {
            hub_chain_id,
            hub_proposal_metadata,
            wormhole_core,
            updates_controlled_by_governance: true,
        }
    }

    /// Points the collector at a new hub metadata contract.
    pub fn update_hub_proposal_metadata(&mut self, new_hub_proposal_metadata: Vec<u8>)
        ensures
            final(self).hub_proposal_metadata@ == new_hub_proposal_metadata@,
            final(self).hub_chain_id == old(self).hub_chain_id,
            final(self).wormhole_core == old(self).wormhole_core,
            final(self).updates_controlled_by_governance == old(
                self,
            ).updates_controlled_by_governance,
    {
        self.hub_proposal_metadata = new_hub_proposal_metadata;
    }

    /// Relinquishes governance control over metadata updates.
    pub fn relinquish_admin_control_over_hub_proposal_metadata(&mut self)
        ensures
            !final(self).updates_controlled_by_governance,
            final(self).hub_proposal_metadata@ == old(self).hub_proposal_metadata@,
            final(self).hub_chain_id == old(self).hub_chain_id,
            final(self).wormhole_core == old(self).wormhole_core,
    {
        self.updates_controlled_by_governance = false;
    }

    /// Parses the 64-byte result of the metadata getter: a 32-byte
    /// proposal id, 24 zero bytes, then the vote start as the low eight
    /// big-endian bytes of a 256-bit number.
    pub fn parse_eth_response_proposal_data(&self, data: &Vec<u8>) -> (r: Result<
        ProposalDataFromEthResponse,
        ProposalWormholeMessageError,
    >)
        ensures
            match r {
                Ok(parsed) => {
                    &&& data@.len() == 64
                    &&& (forall|i: int| 32 <= i < 56 ==> data@[i] == 0)
                    &&& parsed.proposal_id == ProposalId::spec_from_bytes(data@.subrange(0, 32))
                    &&& parsed.vote_start == be_value(data@.subrange(56, 64))
                },
                Err(e) => {
                    if data@.len() != 64 {
                        e == ProposalWormholeMessageError::InvalidDataLength
                    } else {
                        e == ProposalWormholeMessageError::ErrorOfVoteStartParsing && (exists|
                            i: int,
                        |
                            32 <= i < 56 && data@[i] != 0)
                    }
                },
            },
    {
        if data.len() != 64 {
            return Err(ProposalWormholeMessageError::InvalidDataLength);
        }
        let mut i: usize = 32;
        while i < 56
            invariant
                data@.len() == 64,
                32 <= i <= 56,
                forall|j: int| 32 <= j < i ==> data@[j] == 0,
            decreases 56 - i,
        {
            if data[i] != 0 {
                return Err(ProposalWormholeMessageError::ErrorOfVoteStartParsing);
            }
            i = i + 1;
        }
        let mut id_bytes: Vec<u8> = Vec::new();
        let mut j: usize = 0;
        while j < 32
            invariant
                data@.len() == 64,
                0 <= j <= 32,
                id_bytes@ == data@.subrange(0, j as int),
            decreases 32 - j,
        {
            id_bytes.push(data[j]);
            proof {
                assert(id_bytes@ =~= data@.subrange(0, j + 1));
            }
            j = j + 1;
        }
        let proposal_id = ProposalId::from_bytes(&id_bytes);
        let vote_start = read_u64_be(data, 56);
        proof {
            assert(id_bytes@ == data@.subrange(0, 32));
        }
        Ok(ProposalDataFromEthResponse { proposal_id, vote_start })
    }

    /// Parses the 36-byte calldata of the metadata getter: a 4-byte
    /// selector followed by a 32-byte proposal id.
    pub fn parse_proposal_query_request_data(&self, calldata: &Vec<u8>) -> (r: Result<
        ProposalQueryRequestData,
        ProposalWormholeMessageError,
    >)
        ensures
            match r {
                Ok(parsed) => {
                    &&& calldata@.len() == 36
                    &&& parsed.signature@ == calldata@.subrange(0, 4)
                    &&& parsed.proposal_id == ProposalId::spec_from_bytes(
                        calldata@.subrange(4, 36),
                    )
                },
                Err(e) => {
                    &&& e == ProposalWormholeMessageError::InvalidDataLength
                    &&& calldata@.len() != 36
                },
            },
    {
        if calldata.len() != 36 {
            return Err(ProposalWormholeMessageError::InvalidDataLength);
        }
        let mut signature: Vec<u8> = Vec::new();
        let mut i: usize = 0;
        while i < 4
            invariant
                calldata@.len() == 36,
                0 <= i <= 4,
                signature@ == calldata@.subrange(0, i as int),
            decreases 4 - i,
        {
            signature.push(calldata[i]);
            proof {
                assert(signature@ =~= calldata@.subrange(0, i + 1));
            }
            i = i + 1;
        }
        let mut id_bytes: Vec<u8> = Vec::new();
        let mut j: usize = 4;
        while j < 36
            invariant
                calldata@.len() == 36,
                4 <= j <= 36,
                id_bytes@ == calldata@.subrange(4, j as int),
            decreases 36 - j,
        {
            id_bytes.push(calldata[j]);
            proof {
                assert(id_bytes@ =~= calldata@.subrange(4, j + 1));
            }
            j = j + 1;
        }
        let proposal_id = ProposalId::from_bytes(&id_bytes);
        Ok(ProposalQueryRequestData { signature, proposal_id })
    }
}

/// The first reason a proposal admission would be refused, mirroring the
/// order of the checks: the guardian quorum first, then each payload
/// check, then re-submission of an existing proposal.
pub open spec fn spec_add_proposal_error(
    collector: &SpokeMetadataCollector,
    guardian: Result<(), QueriesSolanaVerifyError>,
    response: &QueryResponseData,
    proposal_id: ProposalId,
    proposal_vote_start: u64,
) -> Option<StakingError> {
    match guardian {
        Err(ge) => Some(StakingError::Verify(ge)),
        Ok(ok_unit) => spec_add_proposal_payload_error(
            collector,
            response,
            proposal_id,
            proposal_vote_start,
        ),
    }
}

/// The payload part of the admission decision, after the quorum holds.
pub open spec fn spec_add_proposal_payload_error(
    collector: &SpokeMetadataCollector,
    response: &QueryResponseData,
    proposal_id: ProposalId,
    proposal_vote_start: u64,
) -> Option<StakingError> {
    if response.responses@.len() != 1 {
        Some(StakingError::Message(ProposalWormholeMessageError::TooManyQueryResponses))
    } else {
        match response.requests@[0].query {
            ChainSpecificQuery::Unsupported => Some(
                StakingError::Message(ProposalWormholeMessageError::InvalidChainSpecificQuery),
            ),
            ChainSpecificQuery::EthCallWithFinalityQueryRequest(q) => {
                if q.finality@ != finalized_ascii() {
                    Some(StakingError::Message(ProposalWormholeMessageError::NonFinalizedBlock))
                } else if q.call_data@[0].to@ != collector.hub_proposal_metadata@ {
                    Some(
                        StakingError::Message(
                            ProposalWormholeMessageError::InvalidHubProposalMetadataContract,
                        ),
                    )
                } else if q.call_data@[0].data@.len() != 36 {
                    Some(StakingError::Message(ProposalWormholeMessageError::InvalidDataLength))
                } else if q.call_data@[0].data@.subrange(0, 4) != proposal_selector() {
                    Some(
                        StakingError::Message(
                            ProposalWormholeMessageError::InvalidFunctionSignature,
                        ),
                    )
                } else if response.responses@[0].chain_id != collector.hub_chain_id {
                    Some(StakingError::Message(ProposalWormholeMessageError::SenderChainMismatch))
                } else {
                    match response.responses@[0].response {
                        ChainSpecificResponse::Unsupported => Some(
                            StakingError::Message(
                                ProposalWormholeMessageError::InvalidChainSpecificResponse,
                            ),
                        ),
                        ChainSpecificResponse::EthCallWithFinalityQueryResponse(resp) => {
                            if resp.results@.len() != 1 {
                                Some(
                                    StakingError::Message(
                                        ProposalWormholeMessageError::TooManyEthCallResults,
                                    ),
                                )
                            } else {
                                let d = resp.results@[0]@;
                                if d.len() != 64 {
                                    Some(
                                        StakingError::Message(
                                            ProposalWormholeMessageError::InvalidDataLength,
                                        ),
                                    )
                                } else if (exists|i: int| 32 <= i < 56 && d[i] != 0) {
                                    Some(
                                        StakingError::Message(
                                            ProposalWormholeMessageError::ErrorOfVoteStartParsing,
                                        ),
                                    )
                                } else if ProposalId::spec_from_bytes(d.subrange(0, 32))
                                    != proposal_id {
                                    Some(
                                        StakingError::Message(
                                            ProposalWormholeMessageError::InvalidProposalId,
                                        ),
                                    )
                                } else if be_value(d.subrange(56, 64)) == 0 {
                                    Some(
                                        StakingError::Message(
                                            ProposalWormholeMessageError::ProposalNotInitialized,
                                        ),
                                    )
                                } else if proposal_vote_start != 0 {
                                    Some(StakingError::Code(ErrorCode::ProposalAlreadyExists))
                                } else {
                                    None
                                }
                            }
                        },
                    }
                }
            },
        }
    }
}

/// Admits a cross-chain proposal: verifies the guardian quorum over the
/// raw payload, validates the decoded query and response, and creates the
/// proposal record exactly once. `response` must be the decoded form of
/// `bytes`; decoding itself is the caller's collaborator.
pub fn add_proposal(
    proposal: &mut ProposalData,
    spoke_metadata_collector: &SpokeMetadataCollector,
    guardian_set: &WormholeGuardianSet,
    guardian_signatures: &GuardianSignatures,
    bytes: &Vec<u8>,
    message_prefix: &Vec<u8>,
    response: &QueryResponseData,
    proposal_id: ProposalId,
    current_timestamp: u32,
) -> (r: Result<ProposalCreated, StakingError>)
    requires
        guardian_set.wf(),
        guardian_set.keys@.len() * 2 <= usize::MAX,
        response.requests@.len() > 0,
        (match response.requests@[0].query {
            ChainSpecificQuery::EthCallWithFinalityQueryRequest(q) => q.call_data@.len() > 0,
            ChainSpecificQuery::Unsupported => true,
        }),
    ensures
        ({
            let decision = spec_add_proposal_error(
                spoke_metadata_collector,
                spec_verify_signatures(
                    bytes@,
                    guardian_signatures.guardian_signatures.deep_view(),
                    guardian_set.keys.deep_view(),
                    guardian_set.expiration_time,
                    message_prefix@,
                    current_timestamp,
                ),
                response,
                proposal_id,
                old(proposal).vote_start,
            );
            match r {
                Ok(ev) => {
                    &&& decision is None
                    &&& ev.proposal_id == proposal_id
                    &&& ev.vote_start > 0
                    &&& *final(proposal) == (ProposalData {
                        id: proposal_id,
                        against_votes: 0,
                        for_votes: 0,
                        abstain_votes: 0,
                        vote_start: ev.vote_start,
                    })
                },
                Err(e) => {
                    &&& decision == Some(e)
                    &&& *final(proposal) == *old(proposal)
                },
            }
        }),
{
    match verify_signatures(
        bytes,
        guardian_signatures,
        guardian_set,
        message_prefix,
        current_timestamp,
    ) {
        Ok(()) => {},
        Err(e) => {
            return Err(StakingError::Verify(e));
        },
    }
    if response.responses.len() != 1 {
        return Err(StakingError::Message(ProposalWormholeMessageError::TooManyQueryResponses));
    }
    let q = match &response.requests[0].query {
        ChainSpecificQuery::EthCallWithFinalityQueryRequest(q) => q,
        ChainSpecificQuery::Unsupported => {
            return Err(
                StakingError::Message(ProposalWormholeMessageError::InvalidChainSpecificQuery),
            );
        },
    };
    let finalized = finalized_bytes();
    if !crate::quorum::bytes_eq(&q.finality, &finalized) {
        return Err(StakingError::Message(ProposalWormholeMessageError::NonFinalizedBlock));
    }
    let call = &q.call_data[0];
    if !crate::quorum::bytes_eq(&call.to, &spoke_metadata_collector.hub_proposal_metadata) {
        return Err(
            StakingError::Message(
                ProposalWormholeMessageError::InvalidHubProposalMetadataContract,
            ),
        );
    }
    let request_data = match spoke_metadata_collector.parse_proposal_query_request_data(
        &call.data,
    ) {
        Ok(parsed) => parsed,
        Err(e) => {
            return Err(StakingError::Message(e));
        },
    };
    let selector = proposal_selector_bytes();
    if !crate::quorum::bytes_eq(&request_data.signature, &selector) {
        return Err(StakingError::Message(ProposalWormholeMessageError::InvalidFunctionSignature));
    }
    let per_chain = &response.responses[0];
    if per_chain.chain_id != spoke_metadata_collector.hub_chain_id {
        return Err(StakingError::Message(ProposalWormholeMessageError::SenderChainMismatch));
    }
    let resp = match &per_chain.response {
        ChainSpecificResponse::EthCallWithFinalityQueryResponse(resp) => resp,
        ChainSpecificResponse::Unsupported => {
            return Err(
                StakingError::Message(ProposalWormholeMessageError::InvalidChainSpecificResponse),
            );
        },
    };
    if resp.results.len() != 1 {
        return Err(StakingError::Message(ProposalWormholeMessageError::TooManyEthCallResults));
    }
    let proposal_data = match spoke_metadata_collector.parse_eth_response_proposal_data(
        &resp.results[0],
    ) {
        Ok(parsed) => parsed,
        Err(e) => {
            return Err(StakingError::Message(e));
        },
    };
    if !(proposal_data.proposal_id == proposal_id) {
        return Err(StakingError::Message(ProposalWormholeMessageError::InvalidProposalId));
    }
    if proposal_data.vote_start == 0 {
        return Err(StakingError::Message(ProposalWormholeMessageError::ProposalNotInitialized));
    }
    match proposal.add_proposal(proposal_id, proposal_data.vote_start) {
        Ok(()) => {},
        Err(e) => {
            return Err(StakingError::Code(e));
        },
    }
    Ok(ProposalCreated { proposal_id, vote_start: proposal_data.vote_start })
}

} // verus!

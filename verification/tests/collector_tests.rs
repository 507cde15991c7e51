use anchor_lang::solana_program::keccak;
use anchor_lang::solana_program::secp256k1_recover::secp256k1_recover;
use staking::collector::{
    add_proposal, ChainSpecificQuery, ChainSpecificResponse, EthCallData,
    EthCallWithFinalityData, EthCallWithFinalityResponse, PerChainQueryRequest, PerChainResponse,
    QueryResponseData, SpokeMetadataCollector,
};
use staking::error::{
    ErrorCode, ProposalWormholeMessageError, QueriesSolanaVerifyError, StakingError,
};
use staking::global_config::{
    claim_governance_authority, claim_vesting_admin, init_config, update_governance_authority,
    update_vesting_admin, InitConfigArgs,
};
use staking::ids::{AccountId, ProposalId};
use staking::proposal::ProposalData;
use staking::quorum::{query_message_digest, GuardianSignatures, WormholeGuardianSet};

fn acct(n: u64) -> AccountId {
    AccountId { part1: n, part2: 0, part3: 0, part4: 0 }
}

fn collector() -> SpokeMetadataCollector {
    SpokeMetadataCollector::initialize(2, vec![0x77u8; 20], acct(99))
}

#[test]
fn parse_eth_response_round_trip() {
    let c = collector();
    let mut data = vec![0u8; 64];
    for i in 0..32 {
        data[i] = i as u8;
    }
    data[56..64].copy_from_slice(&1234u64.to_be_bytes());
    let parsed = c.parse_eth_response_proposal_data(&data).unwrap();
    assert_eq!(parsed.vote_start, 1234);
    let expected_id = ProposalId::new(&data[0..32].to_vec()).unwrap();
    assert_eq!(parsed.proposal_id, expected_id);
    // The id survives a round trip through its byte form.
    assert_eq!(expected_id.to_bytes(), data[0..32].to_vec());
    // Wrong length.
    assert_eq!(
        c.parse_eth_response_proposal_data(&vec![0u8; 63]).unwrap_err(),
        ProposalWormholeMessageError::InvalidDataLength
    );
    // A non-zero byte in the zero padding.
    let mut bad = data.clone();
    bad[40] = 1;
    assert_eq!(
        c.parse_eth_response_proposal_data(&bad).unwrap_err(),
        ProposalWormholeMessageError::ErrorOfVoteStartParsing
    );
}

#[test]
fn parse_query_request_round_trip() {
    let c = collector();
    let mut calldata = vec![0u8; 36];
    calldata[0..4].copy_from_slice(&[0xeb, 0x9b, 0x98, 0x38]);
    calldata[10] = 0x42;
    let parsed = c.parse_proposal_query_request_data(&calldata).unwrap();
    assert_eq!(parsed.signature, vec![0xeb, 0x9b, 0x98, 0x38]);
    assert_eq!(parsed.proposal_id.to_bytes(), calldata[4..36].to_vec());
    assert_eq!(
        c.parse_proposal_query_request_data(&vec![0u8; 35]).unwrap_err(),
        ProposalWormholeMessageError::InvalidDataLength
    );
}

#[test]
fn collector_metadata_updates() {
    let mut c = collector();
    assert!(c.updates_controlled_by_governance);
    c.update_hub_proposal_metadata(vec![0x11u8; 20]);
    assert_eq!(c.hub_proposal_metadata, vec![0x11u8; 20]);
    c.relinquish_admin_control_over_hub_proposal_metadata();
    assert!(!c.updates_controlled_by_governance);
}

fn recoverable_sig(digest: &[u8]) -> (Vec<u8>, u8, Vec<u8>) {
    for candidate in 1u8..=40 {
        let rs = vec![candidate; 64];
        if let Ok(pk) = secp256k1_recover(digest, 0, &rs) {
            let hashed = keccak::hash(&pk.to_bytes());
            return (rs, 0, hashed.0[12..32].to_vec());
        }
    }
    panic!("no recoverable signature candidate found");
}

/// A payload, a passing guardian batch over it, and the decoded response
/// that carries `proposal_id` with `vote_start`.
fn admission_fixture(
    proposal_id: ProposalId,
    vote_start: u64,
) -> (Vec<u8>, Vec<u8>, GuardianSignatures, WormholeGuardianSet, QueryResponseData) {
    let bytes = b"encoded query response".to_vec();
    let prefix = b"test_query_prefix".to_vec();
    let digest = query_message_digest(&prefix, &bytes);
    let (rs, v, address) = recoverable_sig(&digest);
    let set = WormholeGuardianSet {
        index: 4,
        keys: (0..19).map(|_| address.clone()).collect(),
        creation_time: 0,
        expiration_time: 0,
    };
    let sigs = GuardianSignatures {
        refund_recipient: acct(1),
        guardian_signatures: (0..13u8)
            .map(|i| {
                let mut sig = vec![i];
                sig.extend_from_slice(&rs);
                sig.push(v);
                sig
            })
            .collect(),
    };
    let mut calldata = vec![0u8; 36];
    calldata[0..4].copy_from_slice(&[0xeb, 0x9b, 0x98, 0x38]);
    let mut result = vec![0u8; 64];
    result[0..32].copy_from_slice(&proposal_id.to_bytes());
    result[56..64].copy_from_slice(&vote_start.to_be_bytes());
    let response = QueryResponseData {
        requests: vec![PerChainQueryRequest {
            query: ChainSpecificQuery::EthCallWithFinalityQueryRequest(EthCallWithFinalityData {
                finality: b"finalized".to_vec(),
                call_data: vec![EthCallData { to: vec![0x77u8; 20], data: calldata }],
            }),
        }],
        responses: vec![PerChainResponse {
            chain_id: 2,
            response: ChainSpecificResponse::EthCallWithFinalityQueryResponse(
                EthCallWithFinalityResponse { results: vec![result] },
            ),
        }],
    };
    (bytes, prefix, sigs, set, response)
}

#[test]
fn add_proposal_admits_once() {
    let id = ProposalId { part1: 1, part2: 2, part3: 3, part4: 4 };
    let (bytes, prefix, sigs, set, response) = admission_fixture(id, 777);
    let c = collector();
    let mut proposal = ProposalData::zeroed();
    let ev = add_proposal(&mut proposal, &c, &set, &sigs, &bytes, &prefix, &response, id, 100)
        .unwrap();
    assert_eq!(ev.vote_start, 777);
    assert_eq!(ev.proposal_id, id);
    assert_eq!(proposal.vote_start, 777);
    assert_eq!(proposal.id, id);
    assert_eq!(proposal.for_votes, 0);
    // Re-submission of the same proposal id is rejected.
    let err = add_proposal(&mut proposal, &c, &set, &sigs, &bytes, &prefix, &response, id, 100)
        .unwrap_err();
    assert_eq!(err, StakingError::Code(ErrorCode::ProposalAlreadyExists));
}

#[test]
fn add_proposal_payload_checks() {
    let id = ProposalId { part1: 1, part2: 2, part3: 3, part4: 4 };
    let c = collector();

    // The quorum is checked before any payload validation.
    let (bytes, prefix, mut sigs, set, response) = admission_fixture(id, 777);
    sigs.guardian_signatures.truncate(12);
    let mut proposal = ProposalData::zeroed();
    let err = add_proposal(&mut proposal, &c, &set, &sigs, &bytes, &prefix, &response, id, 100)
        .unwrap_err();
    assert_eq!(err, StakingError::Verify(QueriesSolanaVerifyError::NoQuorum));

    // A non-finalized query is refused.
    let (bytes, prefix, sigs, set, mut response) = admission_fixture(id, 777);
    if let ChainSpecificQuery::EthCallWithFinalityQueryRequest(q) = &mut response.requests[0].query
    {
        q.finality = b"safe".to_vec();
    }
    let err = add_proposal(&mut proposal, &c, &set, &sigs, &bytes, &prefix, &response, id, 100)
        .unwrap_err();
    assert_eq!(err, StakingError::Message(ProposalWormholeMessageError::NonFinalizedBlock));

    // A call aimed at the wrong contract is refused.
    let (bytes, prefix, sigs, set, mut response) = admission_fixture(id, 777);
    if let ChainSpecificQuery::EthCallWithFinalityQueryRequest(q) = &mut response.requests[0].query
    {
        q.call_data[0].to = vec![0x01u8; 20];
    }
    let err = add_proposal(&mut proposal, &c, &set, &sigs, &bytes, &prefix, &response, id, 100)
        .unwrap_err();
    assert_eq!(
        err,
        StakingError::Message(ProposalWormholeMessageError::InvalidHubProposalMetadataContract)
    );

    // A wrong function selector is refused.
    let (bytes, prefix, sigs, set, mut response) = admission_fixture(id, 777);
    if let ChainSpecificQuery::EthCallWithFinalityQueryRequest(q) = &mut response.requests[0].query
    {
        q.call_data[0].data[0] = 0;
    }
    let err = add_proposal(&mut proposal, &c, &set, &sigs, &bytes, &prefix, &response, id, 100)
        .unwrap_err();
    assert_eq!(
        err,
        StakingError::Message(ProposalWormholeMessageError::InvalidFunctionSignature)
    );

    // A response from the wrong chain is refused.
    let (bytes, prefix, sigs, set, mut response) = admission_fixture(id, 777);
    response.responses[0].chain_id = 5;
    let err = add_proposal(&mut proposal, &c, &set, &sigs, &bytes, &prefix, &response, id, 100)
        .unwrap_err();
    assert_eq!(err, StakingError::Message(ProposalWormholeMessageError::SenderChainMismatch));

    // Two responses are one too many.
    let (bytes, prefix, sigs, set, mut response) = admission_fixture(id, 777);
    response.responses.push(PerChainResponse {
        chain_id: 2,
        response: ChainSpecificResponse::Unsupported,
    });
    let err = add_proposal(&mut proposal, &c, &set, &sigs, &bytes, &prefix, &response, id, 100)
        .unwrap_err();
    assert_eq!(err, StakingError::Message(ProposalWormholeMessageError::TooManyQueryResponses));

    // A mismatched proposal id is refused.
    let (bytes, prefix, sigs, set, response) = admission_fixture(id, 777);
    let other = ProposalId { part1: 9, part2: 9, part3: 9, part4: 9 };
    let err =
        add_proposal(&mut proposal, &c, &set, &sigs, &bytes, &prefix, &response, other, 100)
            .unwrap_err();
    assert_eq!(err, StakingError::Message(ProposalWormholeMessageError::InvalidProposalId));

    // A zero vote start means the hub proposal does not exist yet.
    let (bytes, prefix, sigs, set, response) = admission_fixture(id, 0);
    let err = add_proposal(&mut proposal, &c, &set, &sigs, &bytes, &prefix, &response, id, 100)
        .unwrap_err();
    assert_eq!(
        err,
        StakingError::Message(ProposalWormholeMessageError::ProposalNotInitialized)
    );

    // Nothing was admitted along the way.
    assert_eq!(proposal.vote_start, 0);
}

#[test]
fn global_config_creation_checks() {
    // The configuration's creation-time checks.
    let args = InitConfigArgs {
        max_checkpoints_account_limit: 1000,
        governance_authority: acct(1),
        voting_token_mint: acct(2),
        vesting_admin: acct(3),
    };
    let config = init_config(args).unwrap();
    assert_eq!(config.max_checkpoints_account_limit, 1000);
    assert!(config.pending_governance_authority.is_none());

    let mut bad = args;
    bad.governance_authority = AccountId { part1: 0, part2: 0, part3: 0, part4: 0 };
    assert_eq!(init_config(bad).unwrap_err(), ErrorCode::InvalidAuthority);

    let mut too_big = args;
    too_big.max_checkpoints_account_limit = 655_001;
    assert_eq!(init_config(too_big).unwrap_err(), ErrorCode::InvalidCheckpointAccountLimit);

    let mut too_small = args;
    too_small.max_checkpoints_account_limit = 850;
    assert_eq!(init_config(too_small).unwrap_err(), ErrorCode::InvalidCheckpointAccountLimit);
}

#[test]
fn authority_handover() {
    let args = InitConfigArgs {
        max_checkpoints_account_limit: 1000,
        governance_authority: acct(1),
        voting_token_mint: acct(2),
        vesting_admin: acct(3),
    };
    let mut config = init_config(args).unwrap();
    // A claim by a stranger is refused.
    assert_eq!(
        claim_governance_authority(&mut config, acct(7)).unwrap_err(),
        ErrorCode::InvalidPendingAuthority
    );
    update_governance_authority(&mut config, acct(7));
    claim_governance_authority(&mut config, acct(7)).unwrap();
    assert_eq!(config.governance_authority, acct(7));
    assert!(config.pending_governance_authority.is_none());

    update_vesting_admin(&mut config, acct(8));
    claim_vesting_admin(&mut config, acct(8)).unwrap();
    assert_eq!(config.vesting_admin, acct(8));
}

#[test]
fn proposal_votes_test() {
    let proposal_id = ProposalId::new(&vec![1u8; 32]).unwrap();
    let proposal = ProposalData {
        id: proposal_id,
        against_votes: 50,
        for_votes: 40,
        abstain_votes: 30,
        vote_start: 10,
    };
    assert_eq!(
        proposal.proposal_votes().unwrap(),
        Some((proposal_id, 50, 40, 30))
    );
}

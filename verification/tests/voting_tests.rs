use staking::checkpoints::{CheckpointData, Operation};
use staking::error::ErrorCode;
use staking::ids::{AccountId, ProposalId};
use staking::proposal::{ProposalData, ProposalVotersWeightCast};
use staking::vote_weight_window_lengths::{init_window_length, VoteWeightWindowLengths};
use staking::voting::{cast_vote, compute_window_weight};

fn acct(n: u64) -> AccountId {
    AccountId { part1: n, part2: 0, part3: 0, part4: 0 }
}

fn pid(n: u64) -> ProposalId {
    ProposalId { part1: 0, part2: 0, part3: 0, part4: n }
}

fn store_with(owner: u64, points: &[(u64, u64)]) -> CheckpointData {
    // Builds a store whose entries are exactly `points`, by pushing the
    // deltas that produce those absolute values.
    let mut store = CheckpointData::initialize(acct(owner));
    let mut prev = 0u64;
    for &(ts, value) in points {
        if value >= prev {
            store.push_checkpoint(value - prev, Operation::Add, ts).unwrap();
        } else {
            store.push_checkpoint(prev - value, Operation::Subtract, ts).unwrap();
        }
        prev = value;
    }
    store
}

fn fresh_cast(proposal_id: ProposalId) -> (ProposalData, ProposalVotersWeightCast) {
    let mut proposal = ProposalData::zeroed();
    proposal.add_proposal(proposal_id, 20).unwrap();
    let weight_cast = ProposalVotersWeightCast { proposal_id, voter: acct(0), value: 0 };
    (proposal, weight_cast)
}

const MAX: u32 = 1000;

#[test]
fn windowed_weight_is_minimum_not_endpoint() {
    // Checkpoints (0,100), (10,50), (20,200) and window [5,20]: the weight
    // is 50, the minimum observed in the window, not 200.
    let store = store_with(1, &[(0, 100), (10, 50), (20, 200)]);
    let weight = compute_window_weight(&store, None, 5, 20, MAX).unwrap();
    assert_eq!(weight, 50);
}

#[test]
fn cast_vote_uses_windowed_minimum() {
    let store = store_with(1, &[(0, 100), (10, 50), (20, 200)]);
    let wls = init_window_length(0, 15).unwrap();
    let (mut proposal, mut wc) = fresh_cast(pid(7));
    let ev = cast_vote(
        &mut proposal,
        &mut wc,
        &store,
        None,
        &wls,
        pid(7),
        acct(1),
        10,
        20,
        15,
        25,
        MAX,
    )
    .unwrap();
    assert_eq!(ev.weight, 50);
    assert_eq!(proposal.against_votes, 10);
    assert_eq!(proposal.for_votes, 20);
    assert_eq!(proposal.abstain_votes, 15);
    assert_eq!(wc.value, 45);
}

#[test]
fn vote_cap_is_enforced_exactly() {
    // A voter with windowed weight 100 casts 90, then 10 more (exactly the
    // cap), and a third attempt must fail.
    let store = store_with(1, &[(0, 100)]);
    let wls = init_window_length(0, 10).unwrap();
    let (mut proposal, mut wc) = fresh_cast(pid(8));
    let args = (pid(8), acct(1));
    let ev = cast_vote(
        &mut proposal, &mut wc, &store, None, &wls, args.0, args.1, 30, 40, 20, 25, MAX,
    )
    .unwrap();
    assert_eq!(ev.weight, 100);
    assert_eq!(wc.value, 90);
    cast_vote(&mut proposal, &mut wc, &store, None, &wls, args.0, args.1, 5, 5, 0, 25, MAX)
        .unwrap();
    assert_eq!(wc.value, 100);
    let err = cast_vote(
        &mut proposal, &mut wc, &store, None, &wls, args.0, args.1, 1, 0, 0, 25, MAX,
    )
    .unwrap_err();
    assert_eq!(err, ErrorCode::AllWeightCast);
    assert_eq!(proposal.against_votes, 35);
    assert_eq!(proposal.for_votes, 45);
    assert_eq!(proposal.abstain_votes, 20);
}

#[test]
fn vote_would_exceed_weight() {
    let store = store_with(1, &[(0, 100)]);
    let wls = init_window_length(0, 10).unwrap();
    let (mut proposal, mut wc) = fresh_cast(pid(9));
    let err = cast_vote(
        &mut proposal, &mut wc, &store, None, &wls, pid(9), acct(1), 60, 41, 0, 25, MAX,
    )
    .unwrap_err();
    assert_eq!(err, ErrorCode::VoteWouldExceedWeight);
    assert_eq!(wc.value, 0);
    assert_eq!(proposal.against_votes, 0);
}

#[test]
fn vote_on_inactive_proposal_is_refused() {
    let store = store_with(1, &[(0, 100)]);
    let wls = init_window_length(0, 10).unwrap();
    let (mut proposal, mut wc) = fresh_cast(pid(10));
    let err = cast_vote(
        &mut proposal, &mut wc, &store, None, &wls, pid(10), acct(1), 1, 0, 0, 20, MAX,
    )
    .unwrap_err();
    assert_eq!(err, ErrorCode::ProposalInactive);
}

#[test]
fn missing_window_length_is_a_configuration_error() {
    let store = store_with(1, &[(0, 100)]);
    // The only window length entry postdates the proposal's start.
    let mut wls: VoteWeightWindowLengths = init_window_length(30, 10).unwrap();
    wls.push_new_window_length(40, 12).unwrap();
    let (mut proposal, mut wc) = fresh_cast(pid(11));
    let err = cast_vote(
        &mut proposal, &mut wc, &store, None, &wls, pid(11), acct(1), 1, 0, 0, 25, MAX,
    )
    .unwrap_err();
    assert_eq!(err, ErrorCode::WindowLengthNotFound);
}

#[test]
fn no_weight_before_history_or_at_zero() {
    // The window start predates the voter's first checkpoint.
    let store = store_with(1, &[(10, 100)]);
    let wls = init_window_length(0, 15).unwrap();
    let (mut proposal, mut wc) = fresh_cast(pid(12));
    let err = cast_vote(
        &mut proposal, &mut wc, &store, None, &wls, pid(12), acct(1), 1, 0, 0, 25, MAX,
    )
    .unwrap_err();
    assert_eq!(err, ErrorCode::NoWeight);
    // A zero minimum in the window is also no weight.
    let store2 = store_with(2, &[(0, 0)]);
    let (mut proposal2, mut wc2) = fresh_cast(pid(13));
    let err2 = cast_vote(
        &mut proposal2, &mut wc2, &store2, None, &wls, pid(13), acct(2), 1, 0, 0, 25, MAX,
    )
    .unwrap_err();
    assert_eq!(err2, ErrorCode::NoWeight);
}

#[test]
fn window_crossing_needs_next_segment() {
    // A full first store (capacity 3) whose last entry duplicates into the
    // follow-on store, as segment rollover leaves it.
    let cur = store_with(1, &[(0, 100), (10, 60), (15, 80)]);
    let next = store_with(1, &[(15, 80), (18, 40), (30, 500)]);
    let wls = init_window_length(0, 15).unwrap();
    // Without the follow-on store the traversal cannot finish.
    let err = compute_window_weight(&cur, None, 5, 20, 3).unwrap_err();
    assert_eq!(err, ErrorCode::MissingNextCheckpointDataAccount);
    // With it, the minimum spans both segments; (30,500) lies beyond the
    // vote start and is ignored.
    let weight = compute_window_weight(&cur, Some(&next), 5, 20, 3).unwrap();
    assert_eq!(weight, 40);
    // A window-start checkpoint in the last slot of a full store is out of
    // bounds for this lookup.
    let err2 = compute_window_weight(&cur, Some(&next), 16, 20, 3).unwrap_err();
    assert_eq!(err2, ErrorCode::CheckpointOutOfBounds);
}

#[test]
fn window_underflow_is_reported() {
    let store = store_with(1, &[(0, 100)]);
    // The window length exceeds the proposal's start timestamp.
    let wls = init_window_length(0, 30).unwrap();
    let mut proposal = ProposalData::zeroed();
    proposal.add_proposal(pid(14), 20).unwrap();
    let mut wc = ProposalVotersWeightCast { proposal_id: pid(14), voter: acct(0), value: 0 };
    let err = cast_vote(
        &mut proposal, &mut wc, &store, None, &wls, pid(14), acct(1), 1, 0, 0, 25, MAX,
    )
    .unwrap_err();
    assert_eq!(err, ErrorCode::GenericUnderflow);
}

#[test]
fn window_length_store_enforces_maximum_and_order() {
    assert_eq!(
        init_window_length(0, 851).unwrap_err(),
        ErrorCode::ExceedsMaxAllowableVoteWeightWindowLength
    );
    let mut wls = init_window_length(10, 100).unwrap();
    assert_eq!(
        wls.push_new_window_length(20, 851).unwrap_err(),
        ErrorCode::ExceedsMaxAllowableVoteWeightWindowLength
    );
    assert_eq!(
        wls.push_new_window_length(5, 100).unwrap_err(),
        ErrorCode::InvalidTimestamp
    );
    // Same-instant updates coalesce; later ones append.
    wls.push_new_window_length(10, 200).unwrap();
    assert_eq!(wls.next_index(), 1);
    wls.push_new_window_length(30, 300).unwrap();
    assert_eq!(wls.next_index(), 2);
    let (_, wl) = wls.find_window_length_le(29).unwrap();
    assert_eq!((wl.timestamp, wl.value), (10, 200));
}

#[test]
fn check_window_length_size() {
    assert!(staking::layout::WINDOW_LENGTH_SIZE == 8 + 8); // 16 (timestamp + value)
}

#[test]
fn check_vote_weight_window_lengths_header_size() {
    assert!(staking::layout::VOTE_WEIGHT_WINDOW_LENGTHS_HEADER_SIZE == 8 + 8);
    // 16 (discriminator + next_index)
}

#[test]
fn check_vote_weight_window_lengths_size() {
    assert!(staking::layout::VOTE_WEIGHT_WINDOW_LENGTHS_LEN == 16 + 16); // 32 (header + checkpoint)
}

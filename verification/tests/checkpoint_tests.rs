use staking::checkpoints::{CheckpointData, Operation};
use staking::error::ErrorCode;
use staking::ids::AccountId;
use staking::layout;

fn acct(n: u64) -> AccountId {
    AccountId { part1: n, part2: 0, part3: 0, part4: 0 }
}

#[test]
fn check_checkpoint_size() {
    assert!(layout::CHECKPOINT_SIZE == 8 + 8); // 16 (timestamp + value)
}

#[test]
fn check_checkpoint_data_header_size() {
    assert!(layout::CHECKPOINT_DATA_HEADER_SIZE == 8 + 32 + 8); // 48 (discriminator + owner + next_index)
}

#[test]
fn check_checkpoint_data_size() {
    assert!(layout::CHECKPOINT_DATA_LEN == 48); // 48 (header)
}

#[test]
fn push_appends_in_timestamp_order() {
    let mut store = CheckpointData::initialize(acct(1));
    assert!(store.latest().is_none());
    store.push_checkpoint(7, Operation::Add, 1).unwrap();
    store.push_checkpoint(6, Operation::Add, 2).unwrap();
    assert_eq!(store.latest(), Some(13));
    assert_eq!(store.next_index(), 2);
    let ts: Vec<u64> = store.checkpoints.iter().map(|c| c.timestamp).collect();
    assert_eq!(ts, vec![1, 2]);
}

#[test]
fn push_rejects_stale_timestamp() {
    let mut store = CheckpointData::initialize(acct(1));
    store.push_checkpoint(5, Operation::Add, 10).unwrap();
    let err = store.push_checkpoint(1, Operation::Add, 9).unwrap_err();
    assert_eq!(err, ErrorCode::InvalidTimestamp);
    // The rejected push changed nothing.
    assert_eq!(store.next_index(), 1);
    assert_eq!(store.latest(), Some(5));
}

#[test]
fn same_instant_pushes_coalesce() {
    let mut store = CheckpointData::initialize(acct(1));
    store.push_checkpoint(19, Operation::Add, 21).unwrap();
    store.push_checkpoint(31, Operation::Add, 21).unwrap();
    // One stored entry holding the net effect, not two entries.
    assert_eq!(store.next_index(), 1);
    assert_eq!(store.latest(), Some(50));
    assert_eq!(store.checkpoints[0].timestamp, 21);
}

#[test]
fn push_overflow_and_underflow_are_errors() {
    let mut store = CheckpointData::initialize(acct(1));
    store.push_checkpoint(u64::MAX, Operation::Add, 1).unwrap();
    let err = store.push_checkpoint(1, Operation::Add, 2).unwrap_err();
    assert_eq!(err, ErrorCode::GenericOverflow);
    let mut store2 = CheckpointData::initialize(acct(2));
    store2.push_checkpoint(3, Operation::Add, 1).unwrap();
    let err2 = store2.push_checkpoint(4, Operation::Subtract, 2).unwrap_err();
    assert_eq!(err2, ErrorCode::GenericUnderflow);
    // A subtract from an empty store underflows too.
    let mut store3 = CheckpointData::initialize(acct(3));
    let err3 = store3.push_checkpoint(1, Operation::Subtract, 1).unwrap_err();
    assert_eq!(err3, ErrorCode::GenericUnderflow);
}

#[test]
fn find_at_or_before_matches_linear_scan() {
    let mut store = CheckpointData::initialize(acct(1));
    let pushes: [(u64, u64); 6] = [(1, 7), (3, 6), (5, 3), (10, 1), (12, 3), (20, 14)];
    let mut running = 0u64;
    for (ts, delta) in pushes {
        store.push_checkpoint(delta, Operation::Add, ts).unwrap();
        running += delta;
    }
    assert_eq!(store.latest(), Some(running));
    // Reference linear scan over the same history.
    let cps: Vec<(u64, u64)> = store.checkpoints.iter().map(|c| (c.timestamp, c.value)).collect();
    for target in 0u64..25 {
        let expected = cps.iter().rev().find(|(ts, _)| *ts <= target).copied();
        let got = store.find_checkpoint_le(target).map(|(i, cp)| {
            assert_eq!((cp.timestamp, cp.value), cps[i]);
            (cp.timestamp, cp.value)
        });
        assert_eq!(got, expected, "target {}", target);
    }
}

#[test]
fn find_at_or_before_prefers_coalesced_value() {
    // Same-timestamp pushes leave one entry that lookups see.
    let mut store = CheckpointData::initialize(acct(1));
    store.push_checkpoint(7, Operation::Add, 1).unwrap();
    store.push_checkpoint(6, Operation::Add, 3).unwrap();
    store.push_checkpoint(3, Operation::Add, 5).unwrap();
    store.push_checkpoint(1, Operation::Add, 10).unwrap();
    store.push_checkpoint(3, Operation::Add, 12).unwrap();
    store.push_checkpoint(14, Operation::Add, 20).unwrap();
    let v8 = store.find_checkpoint_le(8).unwrap().1.value;
    assert_eq!(v8, 16);
    let v12 = store.find_checkpoint_le(12).unwrap().1.value;
    assert_eq!(v12, 20);
    store.push_checkpoint(0, Operation::Subtract, 21).unwrap();
    store.push_checkpoint(16, Operation::Add, 21).unwrap();
    store.push_checkpoint(6, Operation::Subtract, 25).unwrap();
    let v21 = store.find_checkpoint_le(21).unwrap().1.value;
    assert_eq!(v21, 50);
    let v26 = store.find_checkpoint_le(26).unwrap().1.value;
    assert_eq!(v26, 44);
    assert!(store.find_checkpoint_le(0).is_none());
}

#[test]
fn layout_round_trip() {
    // A header-sized buffer plus room for two records.
    let mut data = vec![0u8; 48 + 32];
    let cp = staking::checkpoints::Checkpoint { timestamp: 0x0102030405060708, value: 42 };
    layout::write_checkpoint_at_index(&mut data, 1, &cp).unwrap();
    let back = layout::read_checkpoint_at_index(&data, 1).unwrap();
    assert_eq!(back.timestamp, cp.timestamp);
    assert_eq!(back.value, cp.value);
    // Little-endian on the wire.
    assert_eq!(data[48 + 16], 0x08);
    assert_eq!(data[48 + 16 + 7], 0x01);
    assert_eq!(data[48 + 16 + 8], 42);
    // The neighbouring record is untouched.
    let other = layout::read_checkpoint_at_index(&data, 0).unwrap();
    assert_eq!((other.timestamp, other.value), (0, 0));
    // Out of bounds is refused.
    let err = layout::write_checkpoint_at_index(&mut data, 2, &cp).unwrap_err();
    assert_eq!(err, ErrorCode::CheckpointOutOfBounds);
    assert_eq!(layout::read_checkpoint_at_index(&data, 2).unwrap_err(), ErrorCode::CheckpointOutOfBounds);
}

#[test]
fn required_size_grows_by_exactly_one_record() {
    assert_eq!(layout::checkpoint_data_required_size(0), 48);
    assert_eq!(layout::checkpoint_data_required_size(1), 64);
    assert_eq!(
        layout::checkpoint_data_required_size(655_000),
        48 + 655_000 * 16
    );
    assert_eq!(layout::vote_weight_window_lengths_required_size(1), 32);
}

#[test]
fn push_checkpoint_init_seeds_follow_on_store() {
    let store =
        staking::checkpoints::push_checkpoint_init(acct(5), 25, Operation::Add, 9).unwrap();
    assert_eq!(store.owner, acct(5));
    assert_eq!(store.next_index(), 1);
    assert_eq!(store.checkpoints[0].timestamp, 9);
    assert_eq!(store.checkpoints[0].value, 25);
    let err =
        staking::checkpoints::push_checkpoint_init(acct(5), 1, Operation::Subtract, 9).unwrap_err();
    assert_eq!(err, ErrorCode::GenericUnderflow);
}

#[test]
fn find_at_or_before_over_generated_sequences() {
    // A small linear-congruential generator drives many push sequences;
    // every lookup must agree with a linear scan of the stored entries.
    let mut seed: u64 = 0x2545F491_4F6CDD1D;
    let mut next = move || {
        seed = seed.wrapping_mul(6364136223846793005).wrapping_add(1442695040888963407);
        seed >> 33
    };
    for _round in 0..20 {
        let mut store = CheckpointData::initialize(acct(1));
        let mut ts: u64 = next() % 5;
        for _ in 0..30 {
            let delta = next() % 1000;
            let op = if next() % 2 == 0 || store.latest().unwrap_or(0) < delta {
                Operation::Add
            } else {
                Operation::Subtract
            };
            store.push_checkpoint(delta, op, ts).unwrap();
            ts += next() % 4;
        }
        let cps: Vec<(u64, u64)> =
            store.checkpoints.iter().map(|c| (c.timestamp, c.value)).collect();
        for probe in 0..(ts + 3) {
            let expected = cps.iter().rev().find(|(t, _)| *t <= probe).copied();
            let got = store.find_checkpoint_le(probe).map(|(_, cp)| (cp.timestamp, cp.value));
            assert_eq!(got, expected, "probe {}", probe);
        }
    }
}

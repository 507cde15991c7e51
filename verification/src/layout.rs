//! The persisted account layout: a fixed header followed by 16-byte
//! little-endian `(timestamp, value)` records, with the exact required-size
//! computation kept separate from any storage side effect.

use vstd::prelude::*;
use crate::checkpoints::Checkpoint;
use crate::codec::le_value;
use crate::codec::push_u64_le;
use crate::codec::read_u64_le;
use crate::error::ErrorCode;
use crate::vote_weight_window_lengths::MAX_VOTE_WEIGHT_WINDOW_LENGTH;
use crate::vote_weight_window_lengths::WindowLength;

verus! {

/// One stored record: an 8-byte timestamp and an 8-byte value.
pub const CHECKPOINT_SIZE: usize = 16;

/// The checkpoint account's fixed header: an 8-byte discriminant, a
/// 32-byte owner, and an 8-byte entry count.
pub const CHECKPOINT_DATA_HEADER_SIZE: usize = 48;

/// A fresh checkpoint account holds just the header.
pub const CHECKPOINT_DATA_LEN: usize = 48;

/// The window-length account's fixed header: an 8-byte discriminant and
/// an 8-byte entry count.
pub const VOTE_WEIGHT_WINDOW_LENGTHS_HEADER_SIZE: usize = 16;

/// One stored window length: an 8-byte timestamp and an 8-byte value.
pub const WINDOW_LENGTH_SIZE: usize = 16;

/// A fresh window-length account holds the header and one record.
pub const VOTE_WEIGHT_WINDOW_LENGTHS_LEN: usize = 32;

/// The bytes a checkpoint account must provide to hold `next_index`
/// records: the store grows by exactly one record's bytes at a time.
pub fn checkpoint_data_required_size(next_index: u64) -> (r: u64)
    requires
        48 + next_index * 16 <= u64::MAX,
    ensures
        r == 48 + next_index * 16,
{
    48 + next_index * 16
}

/// The bytes a window-length account must provide for `next_index`
/// records.
pub fn vote_weight_window_lengths_required_size(next_index: u64) -> (r: u64)
    requires
        16 + next_index * 16 <= u64::MAX,
    ensures
        r == 16 + next_index * 16,
{
    16 + next_index * 16
}

/// The timestamp stored at byte `offset`.
pub open spec fn stored_timestamp(data: Seq<u8>, offset: int) -> nat {
    le_value(data.subrange(offset, offset + 8))
}

/// The value stored at byte `offset + 8`.
pub open spec fn stored_value(data: Seq<u8>, offset: int) -> nat {
    le_value(data.subrange(offset + 8, offset + 16))
}

/// Writes a 16-byte record at `offset`: the caller has bounds-checked.
fn write_record(data: &mut Vec<u8>, offset: usize, a: u64, b: u64)
    requires
        offset + 16 <= old(data)@.len(),
    ensures
        final(data)@.len() == old(data)@.len(),
        forall|i: int|
            0 <= i < old(data)@.len() && !(offset <= i < offset + 16) ==> final(data)@[i] == old(
                data,
            )@[i],
        stored_timestamp(final(data)@, offset as int) == a,
        stored_value(final(data)@, offset as int) == b,
{
    let n = data.len();
    let mut buf: Vec<u8> = Vec::new();
    push_u64_le(&mut buf, a);
    let ghost first8 = buf@;
    push_u64_le(&mut buf, b);
    proof {
        assert(first8.subrange(0, 8) =~= first8);
        assert(buf@.subrange(0, 8) == first8);
        assert(le_value(buf@.subrange(0, 8)) == a);
        assert(le_value(buf@.subrange(8, 16)) == b);
    }
    let mut i: usize = 0;
    while i < 16
        invariant
            buf@.len() == 16,
            offset + 16 <= n,
            n == data@.len(),
            data@.len() == old(data)@.len(),
            0 <= i <= 16,
            forall|k: int|
                0 <= k < data@.len() && !(offset <= k < offset + i) ==> data@[k] == old(data)@[k],
            forall|k: int| 0 <= k < i ==> data@[offset + k] == buf@[k],
        decreases 16 - i,
    {
        data.set(offset + i, buf[i]);
        i = i + 1;
    }
    proof {
        assert(data@.subrange(offset as int, offset + 8) =~= buf@.subrange(0, 8));
        assert(data@.subrange(offset + 8, offset + 16) =~= buf@.subrange(8, 16));
    }
}

/// Reads a 16-byte record at `offset`: the caller has bounds-checked.
fn read_record(data: &Vec<u8>, offset: usize) -> (r: (u64, u64))
    requires
        offset + 16 <= data@.len(),
    ensures
        r.0 == stored_timestamp(data@, offset as int),
        r.1 == stored_value(data@, offset as int),
{
    let n = data.len();
    let a = read_u64_le(data, offset);
    let b = read_u64_le(data, offset + 8);
    (a, b)
}

/// Writes a checkpoint into the record slot `index` of an account buffer,
/// refusing a slot beyond the buffer's tail.
pub fn write_checkpoint_at_index(data: &mut Vec<u8>, index: usize, checkpoint: &Checkpoint) -> (r:
    Result<(), ErrorCode>)
    requires
        48 + index * 16 + 16 <= usize::MAX,
    ensures
        match r {
            Ok(()) => {
                &&& 48 + index * 16 + 16 <= old(data)@.len()
                &&& final(data)@.len() == old(data)@.len()
                &&& forall|i: int|
                    0 <= i < old(data)@.len() && !(48 + index * 16 <= i < 48 + index * 16 + 16)
                        ==> final(data)@[i] == old(data)@[i]
                &&& stored_timestamp(final(data)@, 48 + index * 16) == checkpoint.timestamp
                &&& stored_value(final(data)@, 48 + index * 16) == checkpoint.value
            },
            Err(e) => {
                &&& e == ErrorCode::CheckpointOutOfBounds
                &&& 48 + index * 16 + 16 > old(data)@.len()
                &&& *final(data) == *old(data)
            },
        },
{
    let offset = 48 + index * 16;
    if data.len() < 16 || offset > data.len() - 16 {
        return Err(ErrorCode::CheckpointOutOfBounds);
    }
    write_record(data, offset, checkpoint.timestamp, checkpoint.value);
    Ok(())
}

/// Reads the checkpoint in the record slot `index` of an account buffer,
/// refusing a slot beyond the buffer's tail.
pub fn read_checkpoint_at_index(data: &Vec<u8>, index: usize) -> (r: Result<Checkpoint, ErrorCode>)
    requires
        48 + index * 16 + 16 <= usize::MAX,
    ensures
        match r {
            Ok(cp) => {
                &&& 48 + index * 16 + 16 <= data@.len()
                &&& cp.timestamp == stored_timestamp(data@, 48 + index * 16)
                &&& cp.value == stored_value(data@, 48 + index * 16)
            },
            Err(e) => {
                &&& e == ErrorCode::CheckpointOutOfBounds
                &&& 48 + index * 16 + 16 > data@.len()
            },
        },
{
    let offset = 48 + index * 16;
    if data.len() < 16 || offset > data.len() - 16 {
        return Err(ErrorCode::CheckpointOutOfBounds);
    }
    let (timestamp, value) = read_record(data, offset);
    proof {
        crate::codec::lemma_le_value_bound(data@.subrange(offset as int, offset + 8));
        crate::codec::lemma_pow256_values();
    }
    Ok(Checkpoint { timestamp, value })
}

/// Writes a window length into the record slot `index` of the global
/// window-length account, refusing an over-long window or a slot beyond
/// the buffer's tail.
pub fn write_window_length_at_index(data: &mut Vec<u8>, index: usize, window_length: &WindowLength)
    -> (r: Result<(), ErrorCode>)
    requires
        16 + index * 16 + 16 <= usize::MAX,
    ensures
        match r {
            Ok(()) => {
                &&& window_length.value <= MAX_VOTE_WEIGHT_WINDOW_LENGTH
                &&& 16 + index * 16 + 16 <= old(data)@.len()
                &&& final(data)@.len() == old(data)@.len()
                &&& forall|i: int|
                    0 <= i < old(data)@.len() && !(16 + index * 16 <= i < 16 + index * 16 + 16)
                        ==> final(data)@[i] == old(data)@[i]
                &&& stored_timestamp(final(data)@, 16 + index * 16) == window_length.timestamp
                &&& stored_value(final(data)@, 16 + index * 16) == window_length.value
            },
            Err(e) => {
                &&& *final(data) == *old(data)
                &&& if window_length.value > MAX_VOTE_WEIGHT_WINDOW_LENGTH {
                    e == ErrorCode::ExceedsMaxAllowableVoteWeightWindowLength
                } else {
                    e == ErrorCode::CheckpointOutOfBounds && 16 + index * 16 + 16 > old(
                        data,
                    )@.len()
                }
            },
        },
{
    if window_length.value > MAX_VOTE_WEIGHT_WINDOW_LENGTH {
        return Err(ErrorCode::ExceedsMaxAllowableVoteWeightWindowLength);
    }
    let offset = 16 + index * 16;
    if data.len() < 16 || offset > data.len() - 16 {
        return Err(ErrorCode::CheckpointOutOfBounds);
    }
    write_record(data, offset, window_length.timestamp, window_length.value);
    Ok(())
}

/// Reads the window length in the record slot `index` of the global
/// window-length account.
pub fn read_window_length_at_index(data: &Vec<u8>, index: usize) -> (r: Result<
    WindowLength,
    ErrorCode,
>)
    requires
        16 + index * 16 + 16 <= usize::MAX,
    ensures
        match r {
            Ok(wl) => {
                &&& 16 + index * 16 + 16 <= data@.len()
                &&& wl.timestamp == stored_timestamp(data@, 16 + index * 16)
                &&& wl.value == stored_value(data@, 16 + index * 16)
            },
            Err(e) => {
                &&& e == ErrorCode::CheckpointOutOfBounds
                &&& 16 + index * 16 + 16 > data@.len()
            },
        },
{
    let offset = 16 + index * 16;
    if data.len() < 16 || offset > data.len() - 16 {
        return Err(ErrorCode::CheckpointOutOfBounds);
    }
    let (timestamp, value) = read_record(data, offset);
    proof {
        crate::codec::lemma_le_value_bound(data@.subrange(offset as int, offset + 8));
        crate::codec::lemma_pow256_values();
    }
    Ok(WindowLength { timestamp, value })
}

} // verus!

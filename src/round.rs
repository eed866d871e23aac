//! What one round comes to, and the byte-for-byte check of the bytes that a
//! store-and-retrieve round gets back.
use vstd::prelude::*;
use crate::payload::{ramp, ramp_byte};

verus! {

/// The outcome of one round.
#[derive(Clone, Debug, PartialEq, Eq)]
pub enum RoundOutcome {
    /// The round completed and, in store-and-retrieve mode, the bytes that
    /// came back are the payload.
    Success,
    /// The retrieved bytes differ from the payload; `index` is the first
    /// position, among those that both have, where they do.
    Mismatch { index: usize, expected: u8, actual: u8 },
    /// The retrieved bytes agree with the payload at every position that both
    /// have, but the retrieval returned `actual_len` bytes for a payload of
    /// `expected_len`.
    LengthMismatch { expected_len: usize, actual_len: usize },
    /// A call into the data-availability client failed, for the given cause.
    TransportFailure { cause: String },
}

/// Whether `data` agrees with the payload at every one of its positions.
pub open spec fn matches_ramp(data: Seq<u8>) -> bool {
    forall|i: int| 0 <= i < data.len() ==> #[trigger] data[i] == ramp_byte(i)
}

/// The number of positions that a retrieval of `len` bytes shares with a
/// payload of `block_size` bytes.
pub open spec fn common_len(len: nat, block_size: nat) -> nat {
    if len < block_size {
        len
    } else {
        block_size
    }
}

/// Checks the bytes returned by a retrieval against the payload of
/// `block_size` bytes, position by position over the positions that both
/// have, and reports the first position that differs; where all of those
/// agree, the lengths are compared.
pub fn verify_retrieved(block_size: usize, data: &[u8]) -> (r: RoundOutcome)
    ensures
        r is Success || r is Mismatch || r is LengthMismatch,
        r is Success <==> data@ == ramp(block_size as nat),
        r is LengthMismatch <==> {
            &&& data@.len() != block_size
            &&& matches_ramp(data@.take(common_len(data@.len(), block_size as nat) as int))
        },
        r matches RoundOutcome::LengthMismatch { expected_len, actual_len } ==> {
            &&& expected_len == block_size
            &&& actual_len == data@.len()
        },
        r matches RoundOutcome::Mismatch { index, expected, actual } ==> {
            &&& index < common_len(data@.len(), block_size as nat)
            &&& expected == ramp_byte(index as int)
            &&& actual == data@[index as int]
            &&& actual != expected
            &&& matches_ramp(data@.take(index as int))
        },
{
    let common: usize = if data.len() < block_size {
        data.len()
    } else {
        block_size
    };
    let mut i: usize = 0;
    while i < common
        invariant
            common == common_len(data@.len(), block_size as nat),
            i <= common,
            matches_ramp(data@.take(i as int)),
        decreases common - i,
    {
        let expected: u8 = (i % 256) as u8;
        if data[i] != expected {
            assert(data@.take(common as int)[i as int] == data@[i as int]);
            assert(block_size as nat != data@.len() || data@[i as int] != ramp(
                block_size as nat,
            )[i as int]);
            return RoundOutcome::Mismatch { index: i, expected, actual: data[i] };
        }
        assert(data@.take(i as int + 1) =~= data@.take(i as int).push(data@[i as int]));
        i = i + 1;
    }
    if data.len() != block_size {
        return RoundOutcome::LengthMismatch { expected_len: block_size, actual_len: data.len() };
    }
    assert(data@.take(i as int) =~= data@);
    assert(data@ =~= ramp(block_size as nat));
    RoundOutcome::Success
}

/// Bytes identical to the payload pass the check, and bytes of another
/// length never do. Bytes that first differ from the payload at `index`, a
/// position that both have, fail the check, and `index` is the one position
/// that the check can report for them.
pub proof fn lemma_verify_against_payload(len: nat, data: Seq<u8>, index: int)
    ensures
        data == ramp(len) ==> data.len() == len && matches_ramp(data),
        data.len() != len ==> data != ramp(len),
        ({
            &&& 0 <= index < common_len(data.len(), len)
            &&& data[index] != ramp_byte(index)
            &&& forall|j: int| 0 <= j < index ==> #[trigger] data[j] == ramp_byte(j)
        }) ==> {
            &&& data != ramp(len)
            &&& !matches_ramp(data)
            &&& matches_ramp(data.take(index))
            &&& forall|k: int|
                0 <= k < common_len(data.len(), len) && data[k] != ramp_byte(k)
                    && #[trigger] matches_ramp(data.take(k)) ==> k == index
        },
{
    if 0 <= index < common_len(data.len(), len) && data[index] != ramp_byte(index) && (forall|j: int|
        0 <= j < index ==> #[trigger] data[j] == ramp_byte(j)) {
        if data == ramp(len) {
            assert(data[index] == ramp(len)[index]);
        }
        assert forall|k: int|
            0 <= k < common_len(data.len(), len) && data[k] != ramp_byte(k)
                && #[trigger] matches_ramp(data.take(k)) implies k == index by {
            if k > index {
                assert(data.take(k)[index] == data[index]);
            }
        }
        assert forall|j: int| 0 <= j < index implies #[trigger] data.take(index)[j] == ramp_byte(j) by {
            assert(data[j] == ramp_byte(j));
        }
    }
}

} // verus!

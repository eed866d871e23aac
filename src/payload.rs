//! The fixed test payload: a ramp of bytes repeating every 256.
use vstd::prelude::*;

verus! {

/// The byte that the payload holds at `index`.
pub open spec fn ramp_byte(index: int) -> u8 {
    (index % 256) as u8
}

/// The payload of `len` bytes: byte `i` is `i mod 256`.
pub open spec fn ramp(len: nat) -> Seq<u8> {
    Seq::new(len, |i: int| ramp_byte(i))
}

/// Builds the payload of `block_size` bytes.
pub fn make_payload(block_size: usize) -> (r: Vec<u8>)
    ensures
        r@ == ramp(block_size as nat),
        r@.len() == block_size,
        forall|i: int| 0 <= i < block_size ==> #[trigger] r@[i] == (i % 256) as u8,
{
    let mut data: Vec<u8> = Vec::with_capacity(block_size);
    let mut i: usize = 0;
    while i < block_size
        invariant
            i <= block_size,
            data@ == ramp(i as nat),
        decreases block_size - i,
    {
        data.push((i % 256) as u8);
        i = i + 1;
        assert(data@ =~= ramp(i as nat));
    }
    data
}

/// Any two byte sequences of length `len` whose byte `i` is `i mod 256` are
/// one and the same: the payload is fixed by its size, so every build of it
/// for one size gives identical bytes.
pub proof fn lemma_payload_determined_by_size(len: nat, a: Seq<u8>, b: Seq<u8>)
    requires
        a.len() == len,
        b.len() == len,
        forall|i: int| 0 <= i < len ==> #[trigger] a[i] == (i % 256) as u8,
        forall|i: int| 0 <= i < len ==> #[trigger] b[i] == (i % 256) as u8,
    ensures
        a == b,
        a == ramp(len),
{
    assert(a =~= ramp(len));
    assert(b =~= ramp(len));
}

} // verus!

//! Conversion of a 20-byte account address to its canonical 32-byte
//! identifier, used uniformly across both chains' message envelopes.

use vstd::prelude::*;

verus! {

/// Byte length of an EVM-style account address.
pub const ADDRESS_LEN: usize = 20;

/// The canonical identifier of an address: the address itself in the first
/// twenty bytes, zeroes in the last twelve.
pub open spec fn spec_address_to_h256(addr: Seq<u8>) -> Seq<u8> {
    addr + Seq::new(12, |i: int| 0u8)
}

/// Widens a 20-byte account address to its canonical 32-byte identifier by
/// zero-filling the last twelve bytes.  Total and deterministic; the inverse
/// is implicit in consumers that read back only the first twenty bytes.
pub fn address_to_h256(from: &[u8]) -> (r: Vec<u8>)
    requires
        from@.len() == ADDRESS_LEN,
    ensures
        r@ == spec_address_to_h256(from@),
        r@.len() == 32,
        r@.subrange(0, 20) == from@,
        forall|i: int| 20 <= i < 32 ==> r@[i] == 0u8,
{
    let mut r: Vec<u8> = Vec::new();
    let mut i: usize = 0;
    while i < 20
        invariant
            i <= 20,
            from@.len() == 20,
            r@.len() == i,
            forall|j: int| 0 <= j < i ==> r@[j] == from@[j],
        decreases 20 - i,
    {
        r.push(from[i]);
        i = i + 1;
    }
    let mut k: usize = 0;
    while k < 12
        invariant
            k <= 12,
            from@.len() == 20,
            r@.len() == 20 + k,
            forall|j: int| 0 <= j < 20 ==> r@[j] == from@[j],
            forall|j: int| 20 <= j < 20 + k ==> r@[j] == 0u8,
        decreases 12 - k,
    {
        r.push(0u8);
        k = k + 1;
    }
    proof {
        assert(r@ =~= spec_address_to_h256(from@));
        assert(r@.subrange(0, 20) =~= from@);
    }
    r
}

} // verus!

//! Big-endian byte codecs for the fixed-width integers that cross the bridge:
//! 128-bit amounts and 64-bit message identifiers.

use vstd::prelude::*;

verus! {

/// The sixteen bytes of `x` in big-endian order (most significant byte first).
pub open spec fn spec_u128_to_be_bytes(x: u128) -> Seq<u8> {
    seq![
        ((x >> 120) & 0xff) as u8,
        ((x >> 112) & 0xff) as u8,
        ((x >> 104) & 0xff) as u8,
        ((x >> 96) & 0xff) as u8,
        ((x >> 88) & 0xff) as u8,
        ((x >> 80) & 0xff) as u8,
        ((x >> 72) & 0xff) as u8,
        ((x >> 64) & 0xff) as u8,
        ((x >> 56) & 0xff) as u8,
        ((x >> 48) & 0xff) as u8,
        ((x >> 40) & 0xff) as u8,
        ((x >> 32) & 0xff) as u8,
        ((x >> 24) & 0xff) as u8,
        ((x >> 16) & 0xff) as u8,
        ((x >> 8) & 0xff) as u8,
        (x & 0xff) as u8,
    ]
}

/// The unsigned value of sixteen big-endian bytes.
pub open spec fn spec_u128_from_be_bytes(s: Seq<u8>) -> u128
    recommends
        s.len() == 16,
{
    ((s[0] as u128) << 120) | ((s[1] as u128) << 112) | ((s[2] as u128) << 104)
        | ((s[3] as u128) << 96) | ((s[4] as u128) << 88) | ((s[5] as u128) << 80)
        | ((s[6] as u128) << 72) | ((s[7] as u128) << 64) | ((s[8] as u128) << 56)
        | ((s[9] as u128) << 48) | ((s[10] as u128) << 40) | ((s[11] as u128) << 32)
        | ((s[12] as u128) << 24) | ((s[13] as u128) << 16) | ((s[14] as u128) << 8)
        | (s[15] as u128)
}

/// The unsigned value of eight big-endian bytes.
pub open spec fn spec_u64_from_be_bytes(s: Seq<u8>) -> u64
    recommends
        s.len() == 8,
{
    ((s[0] as u64) << 56) | ((s[1] as u64) << 48) | ((s[2] as u64) << 40)
        | ((s[3] as u64) << 32) | ((s[4] as u64) << 24) | ((s[5] as u64) << 16)
        | ((s[6] as u64) << 8) | (s[7] as u64)
}

/// Decoding the big-endian encoding of a 128-bit value returns the value.
pub proof fn lemma_u128_be_bytes_round_trip(x: u128)
    ensures
        spec_u128_from_be_bytes(spec_u128_to_be_bytes(x)) == x,
{
    let s = spec_u128_to_be_bytes(x);
    assert((x >> 120) & 0xff < 256 && (x >> 112) & 0xff < 256 && (x >> 104) & 0xff < 256
        && (x >> 96) & 0xff < 256 && (x >> 88) & 0xff < 256 && (x >> 80) & 0xff < 256
        && (x >> 72) & 0xff < 256 && (x >> 64) & 0xff < 256 && (x >> 56) & 0xff < 256
        && (x >> 48) & 0xff < 256 && (x >> 40) & 0xff < 256 && (x >> 32) & 0xff < 256
        && (x >> 24) & 0xff < 256 && (x >> 16) & 0xff < 256 && (x >> 8) & 0xff < 256
        && x & 0xff < 256) by (bit_vector);
    assert(x == (((x >> 120) & 0xff) << 120) | (((x >> 112) & 0xff) << 112)
        | (((x >> 104) & 0xff) << 104) | (((x >> 96) & 0xff) << 96) | (((x >> 88) & 0xff) << 88)
        | (((x >> 80) & 0xff) << 80) | (((x >> 72) & 0xff) << 72) | (((x >> 64) & 0xff) << 64)
        | (((x >> 56) & 0xff) << 56) | (((x >> 48) & 0xff) << 48) | (((x >> 40) & 0xff) << 40)
        | (((x >> 32) & 0xff) << 32) | (((x >> 24) & 0xff) << 24) | (((x >> 16) & 0xff) << 16)
        | (((x >> 8) & 0xff) << 8) | (x & 0xff)) by (bit_vector);
    assert(spec_u128_from_be_bytes(s) == x);
}

/// The sixteen big-endian bytes of `x`, as a vector.
pub fn u128_to_be_bytes_vec(x: u128) -> (r: Vec<u8>)
    ensures
        r@ == spec_u128_to_be_bytes(x),
        r@.len() == 16,
{
    let mut r: Vec<u8> = Vec::new();
    r.push(((x >> 120u128) & 0xff) as u8);
    r.push(((x >> 112u128) & 0xff) as u8);
    r.push(((x >> 104u128) & 0xff) as u8);
    r.push(((x >> 96u128) & 0xff) as u8);
    r.push(((x >> 88u128) & 0xff) as u8);
    r.push(((x >> 80u128) & 0xff) as u8);
    r.push(((x >> 72u128) & 0xff) as u8);
    r.push(((x >> 64u128) & 0xff) as u8);
    r.push(((x >> 56u128) & 0xff) as u8);
    r.push(((x >> 48u128) & 0xff) as u8);
    r.push(((x >> 40u128) & 0xff) as u8);
    r.push(((x >> 32u128) & 0xff) as u8);
    r.push(((x >> 24u128) & 0xff) as u8);
    r.push(((x >> 16u128) & 0xff) as u8);
    r.push(((x >> 8u128) & 0xff) as u8);
    r.push((x & 0xff) as u8);
    proof {
        assert(r@ =~= spec_u128_to_be_bytes(x));
    }
    r
}

/// Reads the sixteen bytes at `off` as a big-endian 128-bit value.
pub fn u128_from_be_at(data: &[u8], off: usize) -> (r: u128)
    requires
        off + 16 <= data@.len(),
    ensures
        r == spec_u128_from_be_bytes(data@.subrange(off as int, off as int + 16)),
{
    let r: u128 = ((data[off] as u128) << 120u128) | ((data[off + 1] as u128) << 112u128)
        | ((data[off + 2] as u128) << 104u128) | ((data[off + 3] as u128) << 96u128)
        | ((data[off + 4] as u128) << 88u128) | ((data[off + 5] as u128) << 80u128)
        | ((data[off + 6] as u128) << 72u128) | ((data[off + 7] as u128) << 64u128)
        | ((data[off + 8] as u128) << 56u128) | ((data[off + 9] as u128) << 48u128)
        | ((data[off + 10] as u128) << 40u128) | ((data[off + 11] as u128) << 32u128)
        | ((data[off + 12] as u128) << 24u128) | ((data[off + 13] as u128) << 16u128)
        | ((data[off + 14] as u128) << 8u128) | (data[off + 15] as u128);
    proof {
        let s = data@.subrange(off as int, off as int + 16);
        assert(forall|i: int| 0 <= i < 16 ==> s[i] == data@[off + i]);
        assert(spec_u128_from_be_bytes(s) == r);
    }
    r
}

/// Reads the eight bytes at `off` as a big-endian 64-bit value.
pub fn u64_from_be_at(data: &[u8], off: usize) -> (r: u64)
    requires
        off + 8 <= data@.len(),
    ensures
        r == spec_u64_from_be_bytes(data@.subrange(off as int, off as int + 8)),
{
    let r: u64 = ((data[off] as u64) << 56u64) | ((data[off + 1] as u64) << 48u64)
        | ((data[off + 2] as u64) << 40u64) | ((data[off + 3] as u64) << 32u64)
        | ((data[off + 4] as u64) << 24u64) | ((data[off + 5] as u64) << 16u64)
        | ((data[off + 6] as u64) << 8u64) | (data[off + 7] as u64);
    proof {
        let s = data@.subrange(off as int, off as int + 8);
        assert(forall|i: int| 0 <= i < 8 ==> s[i] == data@[off + i]);
        assert(spec_u64_from_be_bytes(s) == r);
    }
    r
}

} // verus!

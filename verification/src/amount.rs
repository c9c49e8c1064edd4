//! Encoding of 128-bit amounts into the fixed big-endian fields used by the
//! EVM-side ABI.
//!
//! Two numerically identical layouts exist and are kept distinct on purpose:
//! the 32-byte amount field of the destination contract's message data
//! (`amount_to_field` / `field_to_amount`), and the 64-byte two-word region
//! in which emitted log data carries the same convention at a 32-byte offset
//! (`enc_amount_to_value` / `enc_value_to_amount`).

use vstd::prelude::*;

use crate::bigendian::{
    lemma_u128_be_bytes_round_trip, spec_u128_from_be_bytes, spec_u128_to_be_bytes,
    u128_from_be_at, u128_to_be_bytes_vec,
};

verus! {

/// The 32-byte amount field: sixteen zero bytes, then the amount big-endian.
pub open spec fn spec_amount_to_field(amount: u128) -> Seq<u8> {
    Seq::new(16, |i: int| 0u8) + spec_u128_to_be_bytes(amount)
}

/// The amount held in a 32-byte field: the value of its last sixteen bytes.
/// The first sixteen bytes are the encoder's zero fill and are ignored here,
/// matching the paired encoder rather than validating its output.
pub open spec fn spec_field_to_amount(field: Seq<u8>) -> u128
    recommends
        field.len() == 32,
{
    spec_u128_from_be_bytes(field.subrange(16, 32))
}

/// The 64-byte two-word layout: forty-eight zero bytes, then the amount
/// big-endian in the last sixteen.
pub open spec fn spec_enc_amount_to_value(amount: u128) -> Seq<u8> {
    Seq::new(48, |i: int| 0u8) + spec_u128_to_be_bytes(amount)
}

/// Encodes `amount` into the 32-byte big-endian field used by the
/// destination chain's ABI for token amounts.
pub fn amount_to_field(amount: u128) -> (r: Vec<u8>)
    ensures
        r@ == spec_amount_to_field(amount),
        r@.len() == 32,
{
    let mut r: Vec<u8> = Vec::new();
    let mut i: usize = 0;
    while i < 16
        invariant
            i <= 16,
            r@.len() == i,
            forall|j: int| 0 <= j < i ==> r@[j] == 0u8,
        decreases 16 - i,
    {
        r.push(0u8);
        i = i + 1;
    }
    let mut tail = u128_to_be_bytes_vec(amount);
    r.append(&mut tail);
    proof {
        assert(r@ =~= spec_amount_to_field(amount));
    }
    r
}

/// Decodes a 32-byte amount field, reading the last sixteen bytes as a
/// big-endian value and ignoring the first sixteen.
pub fn field_to_amount(field: &[u8]) -> (r: u128)
    requires
        field@.len() == 32,
    ensures
        r == spec_field_to_amount(field@),
{
    u128_from_be_at(field, 16)
}

/// Encodes `amount` into the 64-byte two-word region used where the
/// destination ABI carries an amount in the second word of a data payload.
pub fn enc_amount_to_value(amount: u128) -> (r: Vec<u8>)
    ensures
        r@ == spec_enc_amount_to_value(amount),
        r@.len() == 64,
{
    let mut r: Vec<u8> = Vec::new();
    let mut i: usize = 0;
    while i < 48
        invariant
            i <= 48,
            r@.len() == i,
            forall|j: int| 0 <= j < i ==> r@[j] == 0u8,
        decreases 48 - i,
    {
        r.push(0u8);
        i = i + 1;
    }
    let mut tail = u128_to_be_bytes_vec(amount);
    r.append(&mut tail);
    proof {
        assert(r@ =~= spec_enc_amount_to_value(amount));
    }
    r
}

/// Decodes the amount from a 64-byte two-word region, reading the last
/// sixteen bytes as a big-endian value.
pub fn enc_value_to_amount(data: &[u8]) -> (r: u128)
    requires
        data@.len() == 64,
    ensures
        r == spec_u128_from_be_bytes(data@.subrange(48, 64)),
{
    u128_from_be_at(data, 48)
}

/// Round trip: for every 128-bit amount, decoding the encoded 32-byte field
/// returns the amount unchanged.
pub proof fn lemma_amount_field_round_trip(amount: u128)
    ensures
        spec_field_to_amount(spec_amount_to_field(amount)) == amount,
{
    assert(spec_amount_to_field(amount).subrange(16, 32) =~= spec_u128_to_be_bytes(amount));
    lemma_u128_be_bytes_round_trip(amount);
}

/// Round trip for the 64-byte layout: decoding the encoded region returns
/// the amount unchanged.
pub proof fn lemma_enc_value_round_trip(amount: u128)
    ensures
        spec_u128_from_be_bytes(spec_enc_amount_to_value(amount).subrange(48, 64)) == amount,
{
    assert(spec_enc_amount_to_value(amount).subrange(48, 64) =~= spec_u128_to_be_bytes(amount));
    lemma_u128_be_bytes_round_trip(amount);
}

} // verus!

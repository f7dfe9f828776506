//! Scalars: integers modulo the order of the basepoint.
//!
//! A scalar is held as 32 little-endian bytes. The arithmetic is that of
//! `curve25519_dalek`, whose `Scalar` holds an integer below `2^255` that
//! stands for its residue modulo the group order: a secret scalar is clamped
//! and not reduced, every other scalar of a signature is reduced.

use curve25519_dalek::scalar::Scalar;
use vstd::arithmetic::div_mod::{lemma_add_mod_noop_right, lemma_small_mod};
use vstd::prelude::*;

use crate::bytes::{
    le_encoding, le_value, lemma_encoding_len, lemma_encoding_of_value, lemma_le_value_bound,
    lemma_le_value_last, lemma_le_value_mod_8, lemma_value_of_encoding, pow256,
};

verus! {

/// The prime order `2^252 + 27742317777372353535851937790883648493` of the
/// subgroup that the basepoint generates.
pub open spec fn group_order() -> nat {
    0x1000000000000000000000000000000014def9dea2f79cd65812631a5cf5d3ednat
}

/// `2^248`, the weight of the last of 32 little-endian bytes.
pub open spec fn pow2_248() -> nat {
    0x100000000000000000000000000000000000000000000000000000000000000nat
}

/// `2^254`.
pub open spec fn pow2_254() -> nat {
    0x4000000000000000000000000000000000000000000000000000000000000000nat
}

/// `2^255`.
pub open spec fn pow2_255() -> nat {
    0x8000000000000000000000000000000000000000000000000000000000000000nat
}

/// The canonical 32-byte encoding of `value` modulo the group order.
pub open spec fn reduced(value: nat) -> Seq<u8> {
    le_encoding(value % group_order(), 32)
}

/// What clamping makes of 32 bytes: the low three bits of the first byte
/// cleared, the top bit of the last byte cleared and its second-highest bit
/// set.
pub open spec fn clamped(bytes: Seq<u8>) -> Seq<u8> {
    bytes.update(0, bytes[0] & 248).update(31, (bytes[31] & 127) | 64)
}

/// A 32-byte string splits into its low 31 bytes, worth less than `2^248`,
/// and its last byte, which weighs `2^248`.
pub proof fn lemma_le_value_32(bytes: Seq<u8>)
    requires
        bytes.len() == 32,
    ensures
        le_value(bytes) == le_value(bytes.drop_last()) + pow2_248() * bytes[31],
        le_value(bytes.drop_last()) < pow2_248(),
{
    lemma_le_value_last(bytes);
    lemma_le_value_bound(bytes.drop_last());
    assert(pow256(31) == pow2_248()) by {
        reveal_with_fuel(pow256, 32);
    }
}

/// A 32-byte string is below `2^255` exactly when the high bit of its last
/// byte is clear.
pub proof fn lemma_top_bit(bytes: Seq<u8>)
    requires
        bytes.len() == 32,
    ensures
        le_value(bytes) < pow2_255() <==> bytes[31] < 128,
{
    lemma_le_value_32(bytes);
    let top = bytes[31] as nat;
    let weight = pow2_248();
    if top < 128 {
        assert(weight * top <= weight * 127) by (nonlinear_arith)
            requires
                top <= 127,
        ;
    } else {
        assert(weight * top >= weight * 128) by (nonlinear_arith)
            requires
                top >= 128,
        ;
    }
}

/// A clamped string encodes a multiple of the cofactor 8 that lies in
/// `[2^254, 2^255)`.
pub proof fn lemma_clamped_value(bytes: Seq<u8>)
    requires
        bytes.len() == 32,
    ensures
        le_value(clamped(bytes)) % 8 == 0,
        pow2_254() <= le_value(clamped(bytes)) < pow2_255(),
        clamped(bytes)[31] < 128,
{
    let scalar = clamped(bytes);
    let first = bytes[0];
    let last = bytes[31];
    assert((first & 248) % 8 == 0) by (bit_vector);
    assert(64 <= ((last & 127) | 64) < 128) by (bit_vector);
    lemma_le_value_mod_8(scalar);
    lemma_le_value_32(scalar);
    let top = scalar[31] as nat;
    let weight = pow2_248();
    assert(weight * 64 <= weight * top <= weight * 127) by (nonlinear_arith)
        requires
            64 <= top <= 127,
    ;
}

/// 32 bytes whose value is a residue modulo the group order are the
/// canonical encoding of that residue, and their high bit is clear.
pub proof fn lemma_reduced(scalar: Seq<u8>, value: nat)
    requires
        scalar.len() == 32,
        le_value(scalar) == value % group_order(),
    ensures
        scalar == reduced(value),
        scalar[31] < 128,
{
    lemma_encoding_of_value(scalar);
    lemma_top_bit(scalar);
}

/// A reduced scalar has 32 bytes and the value of its residue; reducing it
/// again changes nothing.
pub proof fn lemma_reduced_value(value: nat)
    ensures
        reduced(value).len() == 32,
        le_value(reduced(value)) == value % group_order(),
        reduced(le_value(reduced(value))) == reduced(value),
{
    let residue = value % group_order();
    lemma_encoding_len(residue, 32);
    assert(pow256(32) > group_order()) by {
        reveal_with_fuel(pow256, 33);
    }
    lemma_value_of_encoding(residue, 32);
    lemma_small_mod(residue, group_order());
}

/// `Scalar::from_bytes_mod_order_wide`, read back with `Scalar::to_bytes`:
/// the 64 bytes are taken as a little-endian integer and reduced modulo the
/// group order; the result is the little-endian encoding of that residue.
#[verifier::external_body]
fn reduce_wide(wide: &[u8; 64]) -> (scalar: [u8; 32])
    ensures
        le_value(scalar@) == le_value(wide@) % group_order(),
{
    Scalar::from_bytes_mod_order_wide(wide).to_bytes()
}

/// `Scalar::from_bytes_mod_order`, read back with `Scalar::to_bytes`: the 32
/// bytes are taken as a little-endian integer, all 256 bits of it, and
/// reduced modulo the group order.
#[verifier::external_body]
fn reduce(bytes: &[u8; 32]) -> (scalar: [u8; 32])
    ensures
        le_value(scalar@) == le_value(bytes@) % group_order(),
{
    Scalar::from_bytes_mod_order(*bytes).to_bytes()
}

/// The `Mul` of two `Scalar`s, read back with `Scalar::to_bytes`: the
/// product modulo the group order, reduced, of two integers below `2^255`
/// that need not be reduced themselves. `Scalar::from_bits` takes bytes
/// whose high bit is clear as they are.
#[verifier::external_body]
fn product(a: &[u8; 32], b: &[u8; 32]) -> (result: [u8; 32])
    requires
        a@[31] < 128,
        b@[31] < 128,
    ensures
        le_value(result@) == (le_value(a@) * le_value(b@)) % group_order(),
{
    (Scalar::from_bits(*a) * Scalar::from_bits(*b)).to_bytes()
}

/// The `Add` of two `Scalar`s, read back with `Scalar::to_bytes`: the sum
/// modulo the group order, reduced, of two integers below `2^255` that need
/// not be reduced themselves. `Scalar::from_bits` takes bytes whose high bit
/// is clear as they are.
#[verifier::external_body]
fn sum(a: &[u8; 32], b: &[u8; 32]) -> (result: [u8; 32])
    requires
        a@[31] < 128,
        b@[31] < 128,
    ensures
        le_value(result@) == (le_value(a@) + le_value(b@)) % group_order(),
{
    (Scalar::from_bits(*a) + Scalar::from_bits(*b)).to_bytes()
}

/// Clamps the lower half of an expanded seed into a secret scalar: a
/// multiple of the cofactor in `[2^254, 2^255)`.
pub fn clamp(bytes: [u8; 32]) -> (scalar: [u8; 32])
    ensures
        scalar@ == clamped(bytes@),
        scalar@[31] < 128,
        le_value(scalar@) % 8 == 0,
        pow2_254() <= le_value(scalar@) < pow2_255(),
{
    let mut scalar = bytes;
    scalar[0] &= 248;
    scalar[31] &= 127;
    scalar[31] |= 64;
    proof {
        assert(scalar@ =~= clamped(bytes@));
        lemma_clamped_value(bytes@);
    }
    scalar
}

/// Reduces a 64-byte hash output to a scalar.
pub fn scalar_from_wide(wide: &[u8; 64]) -> (scalar: [u8; 32])
    ensures
        scalar@ == reduced(le_value(wide@)),
        scalar@[31] < 128,
{
    let scalar = reduce_wide(wide);
    proof {
        lemma_reduced(scalar@, le_value(wide@));
    }
    scalar
}

/// Reduces a 32-byte integer, of any size, to a scalar.
pub fn scalar_from_bytes(bytes: &[u8; 32]) -> (scalar: [u8; 32])
    ensures
        scalar@ == reduced(le_value(bytes@)),
        scalar@[31] < 128,
{
    let scalar = reduce(bytes);
    proof {
        lemma_reduced(scalar@, le_value(bytes@));
    }
    scalar
}

/// The response of a signature: `r + k * a` modulo the group order, for a
/// nonce `r`, a challenge `k` and a secret scalar `a` that are each below
/// `2^255`.
pub fn response(r: &[u8; 32], k: &[u8; 32], a: &[u8; 32]) -> (s: [u8; 32])
    requires
        r@[31] < 128,
        k@[31] < 128,
        a@[31] < 128,
    ensures
        s@ == reduced(le_value(r@) + le_value(k@) * le_value(a@)),
        le_value(s@) < group_order(),
{
    let ka = product(k, a);
    proof {
        lemma_reduced(ka@, le_value(k@) * le_value(a@));
    }
    let s = sum(r, &ka);
    proof {
        let x = le_value(r@) as int;
        let y = (le_value(k@) * le_value(a@)) as int;
        lemma_add_mod_noop_right(x, y, group_order() as int);
        lemma_reduced(s@, le_value(r@) + le_value(k@) * le_value(a@));
    }
    s
}

} // verus!

//! Points of the twisted Edwards form of Curve25519.
//!
//! A point is held as its canonical compressed encoding: 32 bytes, the
//! `y`-coordinate below the field modulus with the sign of `x` in the top
//! bit. The group arithmetic is that of `curve25519_dalek`. Each operation
//! that the scheme uses has a name here, a function from encodings to an
//! encoding, and the functions of this module say which operation a call
//! has computed: they decode their arguments with
//! `CompressedEdwardsY::decompress`, which gives back the point that
//! `EdwardsPoint::compress` encoded, and encode their result with `compress`.

use curve25519_dalek::constants::ED25519_BASEPOINT_TABLE;
use curve25519_dalek::edwards::{CompressedEdwardsY, EdwardsPoint};
use curve25519_dalek::scalar::Scalar;
use vstd::prelude::*;

verus! {

/// The point that `encoding` decodes to, as its canonical encoding; `None`
/// where the bytes are not the `y`-coordinate of any point of the curve.
/// Decoding is permissive: a `y`-coordinate at or above the field modulus
/// stands for its residue.
pub uninterp spec fn decoded_point(encoding: Seq<u8>) -> Option<Seq<u8>>;

/// The multiple `[scalar]B` of the basepoint `B`, for a scalar below `2^255`.
pub uninterp spec fn basepoint_multiple(scalar: Seq<u8>) -> Seq<u8>;

/// The additive inverse `-point`.
pub uninterp spec fn negated_point(point: Seq<u8>) -> Seq<u8>;

/// The combination `[a]point + [b]B` of a point and the basepoint `B`, for
/// scalars below `2^255`.
pub uninterp spec fn double_base_multiple(a: Seq<u8>, point: Seq<u8>, b: Seq<u8>) -> Seq<u8>;

/// The difference `minuend - subtrahend`.
pub uninterp spec fn point_difference(minuend: Seq<u8>, subtrahend: Seq<u8>) -> Seq<u8>;

/// The multiple `[8]point` by the cofactor.
pub uninterp spec fn cofactor_multiple(point: Seq<u8>) -> Seq<u8>;

/// The canonical encoding of the identity `(0, 1)`: the byte 1, then 31
/// zero bytes.
pub open spec fn identity_encoding() -> Seq<u8> {
    Seq::new(32, |i: int| if i == 0 { 1u8 } else { 0u8 })
}

/// `bytes` is the canonical encoding of a point: 32 bytes that decode, and
/// to themselves.
pub open spec fn is_point(bytes: Seq<u8>) -> bool {
    bytes.len() == 32 && decoded_point(bytes) == Some(bytes)
}

/// `CompressedEdwardsY::decompress`, followed on success by
/// `EdwardsPoint::compress`: whether the bytes decode, and the canonical
/// encoding of the point that they decode to.
#[verifier::external_body]
pub(crate) fn decompress(encoding: &[u8; 32]) -> (point: Option<[u8; 32]>)
    ensures
        match point {
            Some(p) => decoded_point(encoding@) == Some(p@) && is_point(p@),
            None => decoded_point(encoding@) is None,
        },
{
    match CompressedEdwardsY(*encoding).decompress() {
        Some(point) => Some(point.compress().to_bytes()),
        None => None,
    }
}

/// The `Mul` of a `Scalar` and `ED25519_BASEPOINT_TABLE`: the multiple of
/// the basepoint, encoded. `Scalar::from_bits` takes bytes whose high bit is
/// clear as they are.
#[verifier::external_body]
pub(crate) fn basepoint_mul(scalar: &[u8; 32]) -> (point: [u8; 32])
    requires
        scalar@[31] < 128,
    ensures
        point@ == basepoint_multiple(scalar@),
        is_point(point@),
{
    (&Scalar::from_bits(*scalar) * &ED25519_BASEPOINT_TABLE).compress().to_bytes()
}

/// The `Neg` of an `EdwardsPoint`: the additive inverse of the decoded
/// point, encoded.
#[verifier::external_body]
pub(crate) fn negate(point: &[u8; 32]) -> (negation: [u8; 32])
    requires
        is_point(point@),
    ensures
        negation@ == negated_point(point@),
        is_point(negation@),
{
    (-CompressedEdwardsY(*point).decompress().unwrap()).compress().to_bytes()
}

/// `EdwardsPoint::vartime_double_scalar_mul_basepoint`: `[a]point + [b]B`
/// for the decoded point and the basepoint `B`, encoded.
/// `Scalar::from_bits` takes bytes whose high bit is clear as they are.
#[verifier::external_body]
pub(crate) fn double_scalar_mul_basepoint(a: &[u8; 32], point: &[u8; 32], b: &[u8; 32]) -> (result:
    [u8; 32])
    requires
        a@[31] < 128,
        b@[31] < 128,
        is_point(point@),
    ensures
        result@ == double_base_multiple(a@, point@, b@),
        is_point(result@),
{
    let point = CompressedEdwardsY(*point).decompress().unwrap();
    let a = Scalar::from_bits(*a);
    let b = Scalar::from_bits(*b);
    EdwardsPoint::vartime_double_scalar_mul_basepoint(&a, &point, &b).compress().to_bytes()
}

/// The `Sub` of two `EdwardsPoint`s: the difference of the decoded points,
/// encoded.
#[verifier::external_body]
pub(crate) fn subtract(minuend: &[u8; 32], subtrahend: &[u8; 32]) -> (difference: [u8; 32])
    requires
        is_point(minuend@),
        is_point(subtrahend@),
    ensures
        difference@ == point_difference(minuend@, subtrahend@),
        is_point(difference@),
{
    let minuend = CompressedEdwardsY(*minuend).decompress().unwrap();
    let subtrahend = CompressedEdwardsY(*subtrahend).decompress().unwrap();
    (minuend - subtrahend).compress().to_bytes()
}

/// `EdwardsPoint::mul_by_cofactor`: eight times the decoded point, encoded.
#[verifier::external_body]
pub(crate) fn mul_by_cofactor(point: &[u8; 32]) -> (multiple: [u8; 32])
    requires
        is_point(point@),
    ensures
        multiple@ == cofactor_multiple(point@),
        is_point(multiple@),
{
    CompressedEdwardsY(*point).decompress().unwrap().mul_by_cofactor().compress().to_bytes()
}

/// Whether `point` is the canonical encoding of the identity.
pub fn is_identity_encoding(point: &[u8; 32]) -> (identity: bool)
    ensures
        identity == (point@ == identity_encoding()),
{
    if point[0] != 1 {
        assert(identity_encoding()[0] == 1);
        return false;
    }
    let mut i: usize = 1;
    while i < 32
        invariant
            1 <= i <= 32,
            point@[0] == 1,
            forall|j: int| 1 <= j < i ==> point@[j] == 0,
        decreases 32 - i,
    {
        if point[i] != 0 {
            assert(identity_encoding()[i as int] == 0);
            return false;
        }
        i += 1;
    }
    assert(point@ =~= identity_encoding());
    true
}

} // verus!

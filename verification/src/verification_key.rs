//! Verification keys: the 32 bytes that are exchanged, and the decoded key
//! that verifies signatures.

use vstd::prelude::*;
use vstd::std_specs::convert::FromSpecImpl;

use crate::bytes::{array32_of, copy32, le_value, lemma_array32_of};
use crate::hash::{sha512_digest, sha512_of_three};
use crate::point::{
    cofactor_multiple, decoded_point, decompress, double_base_multiple,
    double_scalar_mul_basepoint, identity_encoding, is_identity_encoding, is_point,
    mul_by_cofactor, negate, negated_point, point_difference, subtract,
};
use crate::scalar::{group_order, reduced, scalar_from_bytes, scalar_from_wide};
use crate::{Error, Signature};

verus! {

/// 32 bytes that claim to be the encoding of a verification key.
///
/// Nothing is known of them yet: [`VerificationKey::try_from`] decodes and
/// validates them.
#[derive(Copy, Clone, PartialEq, Eq, PartialOrd, Ord, Hash, Debug)]
pub struct VerificationKeyBytes(pub(crate) [u8; 32]);

impl View for VerificationKeyBytes {
    type V = Seq<u8>;

    /// The 32 bytes.
    closed spec fn view(&self) -> Seq<u8> {
        self.0@
    }
}

impl AsRef<[u8]> for VerificationKeyBytes {
    fn as_ref(&self) -> (bytes: &[u8])
        ensures
            bytes@ == self@,
    {
        self.0.as_slice()
    }
}

impl VerificationKeyBytes {
    /// Parses an encoded key from a byte sequence, which must be exactly 32
    /// bytes long.
    pub fn try_from(slice: &[u8]) -> (res: Result<VerificationKeyBytes, Error>)
        ensures
            slice@.len() == 32 ==> res is Ok && res->Ok_0@ == slice@,
            slice@.len() != 32 ==> res == Err::<VerificationKeyBytes, Error>(
                Error::InvalidSliceLength,
            ),
    {
        if slice.len() == 32 {
            let bytes = copy32(slice, 0);
            assert(slice@.subrange(0, 32) =~= slice@);
            Ok(VerificationKeyBytes(bytes))
        } else {
            Err(Error::InvalidSliceLength)
        }
    }
}

impl From<[u8; 32]> for VerificationKeyBytes {
    fn from(bytes: [u8; 32]) -> (refined: VerificationKeyBytes)
        ensures
            refined@ == bytes@,
    {
        VerificationKeyBytes(bytes)
    }
}

impl FromSpecImpl<[u8; 32]> for VerificationKeyBytes {
    open spec fn obeys_from_spec() -> bool {
        true
    }

    closed spec fn from_spec(bytes: [u8; 32]) -> VerificationKeyBytes {
        VerificationKeyBytes(bytes)
    }
}

impl From<VerificationKeyBytes> for [u8; 32] {
    fn from(refined: VerificationKeyBytes) -> (bytes: [u8; 32])
        ensures
            bytes@ == refined@,
    {
        proof {
            lemma_array32_of(refined.0);
        }
        refined.0
    }
}

impl FromSpecImpl<VerificationKeyBytes> for [u8; 32] {
    open spec fn obeys_from_spec() -> bool {
        true
    }

    open spec fn from_spec(refined: VerificationKeyBytes) -> [u8; 32] {
        array32_of(refined@)
    }
}

/// The challenge scalar `k` of a signature: the hash of `R_bytes`, `A_bytes`
/// and the message, reduced modulo the group order.
pub open spec fn challenge(R_bytes: Seq<u8>, A_bytes: Seq<u8>, msg: Seq<u8>) -> Seq<u8> {
    reduced(le_value(sha512_digest(R_bytes + A_bytes + msg)))
}

/// Whether the key encoded by `A_bytes` accepts the 64 bytes `signature` on
/// `msg`.
///
/// Both `A_bytes` and the first half `R_bytes` of the signature must decode
/// to points `A` and `R`. The second half is an integer `s` of any size up
/// to 256 bits. With `k` the challenge, the signature is accepted when
/// `[8](R - ([k](-A) + [s]B))` is the identity, which is the cofactored
/// equation `[8][s]B = [8]R + [8][k]A`.
pub open spec fn accepts(A_bytes: Seq<u8>, signature: Seq<u8>, msg: Seq<u8>) -> bool {
    let R_bytes = signature.subrange(0, 32);
    let s_bytes = signature.subrange(32, 64);
    match (decoded_point(A_bytes), decoded_point(R_bytes)) {
        (Some(A), Some(R)) => {
            let k = challenge(R_bytes, A_bytes, msg);
            let s = reduced(le_value(s_bytes));
            let R_prime = double_base_multiple(k, negated_point(A), s);
            cofactor_multiple(point_difference(R, R_prime)) == identity_encoding()
        },
        _ => false,
    }
}

/// Verification reads the response modulo the group order: two signatures
/// with the same commitment whose responses are congruent are accepted or
/// rejected together, whether or not the responses are reduced.
pub proof fn lemma_response_is_read_modulo_the_order(
    A_bytes: Seq<u8>,
    first: Seq<u8>,
    second: Seq<u8>,
    msg: Seq<u8>,
)
    requires
        first.subrange(0, 32) == second.subrange(0, 32),
        le_value(first.subrange(32, 64)) % group_order() == le_value(second.subrange(32, 64))
            % group_order(),
    ensures
        accepts(A_bytes, first, msg) == accepts(A_bytes, second, msg),
{
}

/// Computes the challenge scalar of a signature.
pub fn compute_challenge(R_bytes: &[u8; 32], A_bytes: &[u8; 32], msg: &[u8]) -> (k: [u8; 32])
    ensures
        k@ == challenge(R_bytes@, A_bytes@, msg@),
        k@[31] < 128,
{
    let digest = sha512_of_three(R_bytes.as_slice(), A_bytes.as_slice(), msg);
    scalar_from_wide(&digest)
}

/// A verification key whose bytes have been decoded and found to encode a
/// point of the curve.
///
/// Beside the encoding the key holds the negation `-A` of the point, so that
/// no verification has to negate it again.
#[derive(Copy, Clone, Debug)]
pub struct VerificationKey {
    A_bytes: VerificationKeyBytes,
    minus_A: [u8; 32],
}

impl View for VerificationKey {
    type V = Seq<u8>;

    /// The 32 bytes that the key was decoded from.
    closed spec fn view(&self) -> Seq<u8> {
        self.A_bytes@
    }
}

impl VerificationKey {
    /// The encoding decodes to a point, and the cached point is the exact
    /// negation of that point.
    #[verifier::type_invariant]
    spec fn well_formed(self) -> bool {
        &&& decoded_point(self.A_bytes@) matches Some(A) && self.minus_A@ == negated_point(A)
        &&& is_point(self.minus_A@)
    }

    /// The encoded form that the key was decoded from.
    pub closed spec fn encoding(self) -> VerificationKeyBytes {
        self.A_bytes
    }

    /// Builds the key of a point that is known to be what `A_bytes` decodes
    /// to.
    pub(crate) fn from_decoded(A_bytes: VerificationKeyBytes, A: &[u8; 32]) -> (key:
        VerificationKey)
        requires
            decoded_point(A_bytes@) == Some(A@),
            is_point(A@),
        ensures
            key@ == A_bytes@,
            key.encoding() == A_bytes,
    {
        let minus_A = negate(A);
        VerificationKey { A_bytes, minus_A }
    }

    /// Decodes an encoded key. Every encoding of a point of the curve is
    /// accepted, canonical or not; bytes that encode no point are refused.
    pub fn try_from(bytes: VerificationKeyBytes) -> (res: Result<VerificationKey, Error>)
        ensures
            decoded_point(bytes@) is Some ==> res is Ok && res->Ok_0@ == bytes@
                && res->Ok_0.encoding() == bytes,
            decoded_point(bytes@) is None ==> res == Err::<VerificationKey, Error>(
                Error::MalformedPublicKey,
            ),
    {
        match decompress(&bytes.0) {
            Some(A) => Ok(VerificationKey::from_decoded(bytes, &A)),
            None => Err(Error::MalformedPublicKey),
        }
    }

    /// Verifies that `signature` is a signature on `msg` under this key.
    ///
    /// The signature is accepted exactly when its `R_bytes` decode to a
    /// point and the cofactored verification equation holds. Every other
    /// outcome is the one error `InvalidSignature`, whatever part of the
    /// signature is at fault.
    pub fn verify(&self, signature: &Signature, msg: &[u8]) -> (res: Result<(), Error>)
        ensures
            res is Ok <==> accepts(self@, signature@, msg@),
            res is Err ==> res == Err::<(), Error>(Error::InvalidSignature),
    {
        proof {
            use_type_invariant(self);
            assert(signature@.subrange(0, 32) =~= signature.R_bytes@);
            assert(signature@.subrange(32, 64) =~= signature.s_bytes@);
        }
        let R = match decompress(&signature.R_bytes) {
            Some(R) => R,
            None => {
                return Err(Error::InvalidSignature);
            },
        };
        let s = scalar_from_bytes(&signature.s_bytes);
        let k = compute_challenge(&signature.R_bytes, &self.A_bytes.0, msg);
        let R_prime = double_scalar_mul_basepoint(&k, &self.minus_A, &s);
        let difference = subtract(&R, &R_prime);
        if is_identity_encoding(&mul_by_cofactor(&difference)) {
            Ok(())
        } else {
            Err(Error::InvalidSignature)
        }
    }
}

impl AsRef<[u8]> for VerificationKey {
    fn as_ref(&self) -> (bytes: &[u8])
        ensures
            bytes@ == self@,
    {
        self.A_bytes.0.as_slice()
    }
}

impl From<VerificationKey> for VerificationKeyBytes {
    fn from(key: VerificationKey) -> (bytes: VerificationKeyBytes)
        ensures
            bytes@ == key@,
    {
        key.A_bytes
    }
}

impl FromSpecImpl<VerificationKey> for VerificationKeyBytes {
    open spec fn obeys_from_spec() -> bool {
        true
    }

    open spec fn from_spec(key: VerificationKey) -> VerificationKeyBytes {
        key.encoding()
    }
}

impl From<VerificationKey> for [u8; 32] {
    fn from(key: VerificationKey) -> (bytes: [u8; 32])
        ensures
            bytes@ == key@,
    {
        proof {
            lemma_array32_of(key.A_bytes.0);
        }
        key.A_bytes.0
    }
}

impl FromSpecImpl<VerificationKey> for [u8; 32] {
    open spec fn obeys_from_spec() -> bool {
        true
    }

    open spec fn from_spec(key: VerificationKey) -> [u8; 32] {
        array32_of(key@)
    }
}

} // verus!

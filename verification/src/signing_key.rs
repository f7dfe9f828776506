//! Signing keys: derivation from a seed, and signing.

use vstd::prelude::*;
use vstd::std_specs::convert::FromSpecImpl;

use crate::bytes::{array32_of, copy32, le_value, lemma_array32_of};
use crate::hash::{sha512, sha512_digest, sha512_of_two};
use crate::point::{
    basepoint_mul, basepoint_multiple, cofactor_multiple, double_base_multiple, identity_encoding,
    is_point, negated_point, point_difference,
};
use crate::scalar::{
    clamp, clamped, group_order, lemma_reduced_value, pow2_254, pow2_255, reduced, response,
    scalar_from_wide,
};
use crate::verification_key::{accepts, challenge, compute_challenge};
use crate::{Signature, VerificationKey, VerificationKeyBytes};

verus! {

/// What a signing key holds, as plain byte strings.
pub struct SigningKeyView {
    /// The 32-byte seed that the key was derived from.
    pub seed: Seq<u8>,
    /// The secret scalar `a`, as 32 little-endian bytes.
    pub scalar: Seq<u8>,
    /// The prefix that is hashed with a message into its nonce.
    pub prefix: Seq<u8>,
    /// The encoding of the verification key `A = [a]B`.
    pub verification_key: Seq<u8>,
}

/// The key that a seed expands to.
///
/// The seed is hashed to 64 bytes. The lower half, clamped, is the secret
/// scalar; the upper half is the nonce prefix; the verification key is the
/// multiple of the basepoint by the secret scalar.
pub open spec fn derived_key(seed: Seq<u8>) -> SigningKeyView {
    let digest = sha512_digest(seed);
    let scalar = clamped(digest.subrange(0, 32));
    SigningKeyView {
        seed,
        scalar,
        prefix: digest.subrange(32, 64),
        verification_key: basepoint_multiple(scalar),
    }
}

/// The nonce `r` that a key signs `msg` with: the hash of the prefix and the
/// message, reduced modulo the group order.
pub open spec fn nonce(prefix: Seq<u8>, msg: Seq<u8>) -> Seq<u8> {
    reduced(le_value(sha512_digest(prefix + msg)))
}

/// The 64 bytes of the signature of `key` on `msg`: the commitment
/// `R = [r]B`, then the response `r + k * a` modulo the group order, where
/// `r` is the nonce and `k` the challenge.
pub open spec fn signature_of(key: SigningKeyView, msg: Seq<u8>) -> Seq<u8> {
    let r = nonce(key.prefix, msg);
    let R_bytes = basepoint_multiple(r);
    let k = challenge(R_bytes, key.verification_key, msg);
    R_bytes + reduced(le_value(r) + le_value(k) * le_value(key.scalar))
}

/// Splits the 64-byte hash of a seed into the secret scalar, which is its
/// clamped lower half, and the nonce prefix, which is its upper half.
pub fn secret_parts(digest: &[u8; 64]) -> (parts: ([u8; 32], [u8; 32]))
    ensures
        parts.0@ == clamped(digest@.subrange(0, 32)),
        parts.0@[31] < 128,
        le_value(parts.0@) % 8 == 0,
        pow2_254() <= le_value(parts.0@) < pow2_255(),
        parts.1@ == digest@.subrange(32, 64),
{
    let scalar = clamp(copy32(digest.as_slice(), 0));
    let prefix = copy32(digest.as_slice(), 32);
    (scalar, prefix)
}

/// `Zeroize::zeroize` on a byte array: every byte is overwritten with zero,
/// by volatile writes that the compiler does not remove.
#[verifier::external_body]
fn zeroize_bytes(bytes: &mut [u8; 32])
    ensures
        final(bytes)@ == Seq::new(32, |i: int| 0u8),
    no_unwind
{
    zeroize::Zeroize::zeroize(bytes)
}

/// An Ed25519 signing key.
///
/// The seed, the secret scalar and the nonce prefix are secrets:
/// [`SigningKey::zeroize`] erases them.
#[derive(Copy, Clone)]
pub struct SigningKey {
    seed: [u8; 32],
    s: [u8; 32],
    prefix: [u8; 32],
    vk: VerificationKey,
}

impl View for SigningKey {
    type V = SigningKeyView;

    closed spec fn view(&self) -> SigningKeyView {
        SigningKeyView {
            seed: self.seed@,
            scalar: self.s@,
            prefix: self.prefix@,
            verification_key: self.vk@,
        }
    }
}

impl SigningKey {
    /// The secret scalar is below `2^255`.
    #[verifier::type_invariant]
    spec fn well_formed(self) -> bool {
        self.s@[31] < 128
    }

    /// Derives the signing key of a seed. Every seed has one, and its secret
    /// scalar is a multiple of the cofactor in `[2^254, 2^255)`.
    pub fn from(seed: [u8; 32]) -> (key: SigningKey)
        ensures
            key@ == derived_key(seed@),
            is_point(key@.verification_key),
            le_value(key@.scalar) % 8 == 0,
            pow2_254() <= le_value(key@.scalar) < pow2_255(),
    {
        let digest = sha512(seed.as_slice());
        let (s, prefix) = secret_parts(&digest);
        let A_bytes = basepoint_mul(&s);
        let vk = VerificationKey::from_decoded(VerificationKeyBytes::from(A_bytes), &A_bytes);
        SigningKey { seed, s, prefix, vk }
    }

    /// Creates a signature on `msg` using this key. The key is not changed,
    /// and signing the same message again gives the same signature.
    pub fn sign(&self, msg: &[u8]) -> (sig: Signature)
        ensures
            sig@ == signature_of(self@, msg@),
            is_point(sig.R_bytes@),
            le_value(sig.s_bytes@) < group_order(),
    {
        proof {
            use_type_invariant(self);
        }
        let digest = sha512_of_two(self.prefix.as_slice(), msg);
        let r = scalar_from_wide(&digest);
        let R_bytes = basepoint_mul(&r);
        let A_bytes = <[u8; 32]>::from(self.vk);
        let k = compute_challenge(&R_bytes, &A_bytes, msg);
        let s_bytes = response(&r, &k, &self.s);
        Signature { R_bytes, s_bytes }
    }

    /// Overwrites the seed, the secret scalar and the nonce prefix with
    /// zeros. The verification key, which is no secret, stays.
    pub fn zeroize(&mut self)
        ensures
            final(self)@.seed == Seq::new(32, |i: int| 0u8),
            final(self)@.scalar == Seq::new(32, |i: int| 0u8),
            final(self)@.prefix == Seq::new(32, |i: int| 0u8),
            final(self)@.verification_key == old(self)@.verification_key,
    {
        proof {
            use_type_invariant(&*self);
        }
        zeroize_bytes(&mut self.seed);
        zeroize_bytes(&mut self.s);
        zeroize_bytes(&mut self.prefix);
    }
}

impl AsRef<[u8]> for SigningKey {
    /// The seed.
    fn as_ref(&self) -> (bytes: &[u8])
        ensures
            bytes@ == self@.seed,
    {
        self.seed.as_slice()
    }
}

impl From<SigningKey> for [u8; 32] {
    /// Gives up the key for the seed that it was derived from.
    fn from(key: SigningKey) -> (seed: [u8; 32])
        ensures
            seed@ == key@.seed,
    {
        proof {
            lemma_array32_of(key.seed);
        }
        key.seed
    }
}

impl FromSpecImpl<SigningKey> for [u8; 32] {
    open spec fn obeys_from_spec() -> bool {
        true
    }

    open spec fn from_spec(key: SigningKey) -> [u8; 32] {
        array32_of(key@.seed)
    }
}

impl<'a> From<&'a SigningKey> for VerificationKey {
    /// The verification key that was computed when the key was derived.
    fn from(key: &'a SigningKey) -> (vk: VerificationKey)
        ensures
            vk@ == key@.verification_key,
    {
        key.vk
    }
}

impl<'a> FromSpecImpl<&'a SigningKey> for VerificationKey {
    open spec fn obeys_from_spec() -> bool {
        true
    }

    closed spec fn from_spec(key: &'a SigningKey) -> VerificationKey {
        key.vk
    }
}

impl<'a> From<&'a SigningKey> for VerificationKeyBytes {
    /// The encoding of the verification key.
    fn from(key: &'a SigningKey) -> (bytes: VerificationKeyBytes)
        ensures
            bytes@ == key@.verification_key,
    {
        VerificationKeyBytes::from(key.vk)
    }
}

impl<'a> FromSpecImpl<&'a SigningKey> for VerificationKeyBytes {
    open spec fn obeys_from_spec() -> bool {
        true
    }

    closed spec fn from_spec(key: &'a SigningKey) -> VerificationKeyBytes {
        key.vk.encoding()
    }
}

/// Exporting the key derived from a seed gives back that seed.
pub proof fn lemma_export_of_derived_key(seed: Seq<u8>)
    ensures
        derived_key(seed).seed == seed,
{
}

/// Signing is deterministic: two signatures on the same message, each made
/// with a key derived from the same seed, are the same 64 bytes.
pub proof fn lemma_signing_is_deterministic(
    seed: Seq<u8>,
    msg: Seq<u8>,
    first: Signature,
    second: Signature,
)
    requires
        first@ == signature_of(derived_key(seed), msg),
        second@ == signature_of(derived_key(seed), msg),
    ensures
        first == second,
{
    assert(first.R_bytes@ =~= first@.subrange(0, 32));
    assert(second.R_bytes@ =~= second@.subrange(0, 32));
    assert(first.s_bytes@ =~= first@.subrange(32, 64));
    assert(second.s_bytes@ =~= second@.subrange(32, 64));
    assert(first.R_bytes =~= second.R_bytes);
    assert(first.s_bytes =~= second.s_bytes);
}

/// The one fact about the group on which a key's acceptance of its own
/// signatures rests: for a nonce `r`, a challenge `k` and a secret scalar
/// `a`, with `R = [r]B`, `A = [a]B` and `s = r + k * a` modulo the group
/// order, the point `[8](R - ([k](-A) + [s]B))` is the identity.
pub open spec fn response_balances(r: Seq<u8>, k: Seq<u8>, a: Seq<u8>) -> bool {
    let R = basepoint_multiple(r);
    let minus_A = negated_point(basepoint_multiple(a));
    let s = reduced(le_value(r) + le_value(k) * le_value(a));
    cofactor_multiple(point_difference(R, double_base_multiple(k, minus_A, s)))
        == identity_encoding()
}

/// A derived key accepts its own signature on a message, provided that the
/// commitment and the verification key are canonical encodings of points and
/// that the group arithmetic balances the response against the challenge.
///
/// Signing and verification agree on everything that this library decides:
/// the layout of the 64 bytes, the challenge, and the response, which is
/// already reduced when verification reduces it.
pub proof fn lemma_own_signature_accepted_if_balanced(seed: Seq<u8>, msg: Seq<u8>)
    requires
        is_point(derived_key(seed).verification_key),
        is_point(basepoint_multiple(nonce(derived_key(seed).prefix, msg))),
        response_balances(
            nonce(derived_key(seed).prefix, msg),
            challenge(
                basepoint_multiple(nonce(derived_key(seed).prefix, msg)),
                derived_key(seed).verification_key,
                msg,
            ),
            derived_key(seed).scalar,
        ),
    ensures
        accepts(
            derived_key(seed).verification_key,
            signature_of(derived_key(seed), msg),
            msg,
        ),
{
    let key = derived_key(seed);
    let r = nonce(key.prefix, msg);
    let R_bytes = basepoint_multiple(r);
    let k = challenge(R_bytes, key.verification_key, msg);
    let response = le_value(r) + le_value(k) * le_value(key.scalar);
    let s_bytes = reduced(response);
    let signature = signature_of(key, msg);
    lemma_reduced_value(response);
    assert(signature.subrange(0, 32) =~= R_bytes);
    assert(signature.subrange(32, 64) =~= s_bytes);
}

} // verus!

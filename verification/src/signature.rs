//! The 64-byte signature: a commitment `R` followed by a response `s`.

use vstd::prelude::*;
use vstd::std_specs::convert::FromSpecImpl;

use crate::bytes::{array32_of, array64_of, copy32, join64, lemma_array32_of, lemma_array64_of};
use crate::Error;

verus! {

/// An Ed25519 signature.
///
/// Any 64 bytes form a `Signature`: whether `R_bytes` encodes a point and
/// what integer `s_bytes` encodes is judged only when the signature is
/// verified.
#[derive(Copy, Clone, Eq, PartialEq, Debug)]
pub struct Signature {
    /// The compressed encoding of the commitment point `R`.
    pub R_bytes: [u8; 32],
    /// The little-endian encoding of the response scalar `s`.
    pub s_bytes: [u8; 32],
}

impl View for Signature {
    type V = Seq<u8>;

    /// The 64 bytes of the wire format: `R_bytes`, then `s_bytes`.
    open spec fn view(&self) -> Seq<u8> {
        self.R_bytes@ + self.s_bytes@
    }
}

impl From<[u8; 64]> for Signature {
    fn from(bytes: [u8; 64]) -> (sig: Signature)
        ensures
            sig@ == bytes@,
    {
        let R_bytes = copy32(bytes.as_slice(), 0);
        let s_bytes = copy32(bytes.as_slice(), 32);
        proof {
            lemma_array32_of(R_bytes);
            lemma_array32_of(s_bytes);
            assert(R_bytes@ + s_bytes@ =~= bytes@);
        }
        Signature { R_bytes, s_bytes }
    }
}

impl FromSpecImpl<[u8; 64]> for Signature {
    open spec fn obeys_from_spec() -> bool {
        true
    }

    /// The first 32 bytes are `R_bytes`, the last 32 are `s_bytes`.
    open spec fn from_spec(bytes: [u8; 64]) -> Signature {
        Signature {
            R_bytes: array32_of(bytes@.subrange(0, 32)),
            s_bytes: array32_of(bytes@.subrange(32, 64)),
        }
    }
}

impl From<Signature> for [u8; 64] {
    fn from(sig: Signature) -> (bytes: [u8; 64])
        ensures
            bytes@ == sig@,
    {
        let bytes = join64(&sig.R_bytes, &sig.s_bytes);
        proof {
            lemma_array64_of(bytes);
        }
        bytes
    }
}

impl FromSpecImpl<Signature> for [u8; 64] {
    open spec fn obeys_from_spec() -> bool {
        true
    }

    /// `R_bytes` followed by `s_bytes`.
    open spec fn from_spec(sig: Signature) -> [u8; 64] {
        array64_of(sig@)
    }
}

impl Signature {
    /// Parses a signature from a byte sequence, which must be exactly 64
    /// bytes long.
    pub fn try_from(slice: &[u8]) -> (res: Result<Signature, Error>)
        ensures
            slice@.len() == 64 ==> res is Ok && res->Ok_0@ == slice@,
            slice@.len() != 64 ==> res == Err::<Signature, Error>(Error::InvalidSliceLength),
    {
        if slice.len() == 64 {
            let R_bytes = copy32(slice, 0);
            let s_bytes = copy32(slice, 32);
            assert(R_bytes@ + s_bytes@ =~= slice@);
            Ok(Signature { R_bytes, s_bytes })
        } else {
            Err(Error::InvalidSliceLength)
        }
    }
}

} // verus!

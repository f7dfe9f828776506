//! Ed25519 signatures with consensus-safe verification.
//!
//! Every validator must reach the same accept/reject decision for every byte
//! string that claims to be a signature. Verification therefore decodes points
//! permissively and checks the cofactored equation `[8][s]B = [8]R + [8][k]A`.
#![allow(non_snake_case)]

use vstd::prelude::*;

pub mod bytes;
pub mod hash;
pub mod point;
pub mod scalar;
pub mod signature;
pub mod signing_key;
pub mod verification_key;

pub use signature::Signature;
pub use signing_key::{SigningKey, SigningKeyView};
pub use verification_key::{VerificationKey, VerificationKeyBytes};

verus! {

/// The ways in which parsing, decoding or verification can fail.
#[derive(Debug, Clone, Copy, PartialEq, Eq)]
pub enum Error {
    /// The 32 bytes are not the encoding of any point on the curve.
    MalformedPublicKey,
    /// The verification equation does not hold.
    InvalidSignature,
    /// A byte sequence does not have the fixed width of the type it is parsed as.
    InvalidSliceLength,
}

} // verus!

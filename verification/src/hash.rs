//! The 512-bit hash that expands seeds and derives nonces and challenges.

use sha2::{Digest, Sha512};
use vstd::prelude::*;

verus! {

/// The SHA-512 digest of `message`: 64 bytes.
pub uninterp spec fn sha512_digest(message: Seq<u8>) -> Seq<u8>;

/// `Sha512::digest`: the SHA-512 digest of the whole of `message`, copied
/// out of the hasher's output array.
#[verifier::external_body]
pub(crate) fn sha512(message: &[u8]) -> (digest: [u8; 64])
    ensures
        digest@ == sha512_digest(message@),
{
    Sha512::digest(message).into()
}

/// `Zeroize::zeroize` on a `Vec<u8>`: the bytes of the buffer and the rest
/// of its capacity are overwritten with zeros, by volatile writes that the
/// compiler does not remove, and the buffer is left empty.
#[verifier::external_body]
fn erase(buffer: &mut Vec<u8>)
    ensures
        final(buffer)@ == Seq::<u8>::empty(),
{
    zeroize::Zeroize::zeroize(buffer)
}

/// Appends `bytes` to `buffer`.
fn append(buffer: &mut Vec<u8>, bytes: &[u8])
    ensures
        final(buffer)@ == old(buffer)@ + bytes@,
{
    let len: usize = bytes.len();
    let mut i: usize = 0;
    while i < len
        invariant
            i <= len,
            len == bytes@.len(),
            buffer@ == old(buffer)@ + bytes@.subrange(0, i as int),
        decreases len - i,
    {
        buffer.push(bytes[i]);
        i += 1;
    }
    assert(bytes@.subrange(0, len as int) =~= bytes@);
}

/// The three parts laid end to end. Where their lengths can be added up,
/// room for all of them is reserved at once: a buffer that does not grow
/// while it fills leaves no copy of its contents behind.
pub fn concatenation(first: &[u8], second: &[u8], third: &[u8]) -> (message: Vec<u8>)
    ensures
        message@ == first@ + second@ + third@,
{
    let mut message: Vec<u8> = Vec::new();
    if let Some(two) = first.len().checked_add(second.len()) {
        if let Some(three) = two.checked_add(third.len()) {
            let _ = message.try_reserve(three);
        }
    }
    append(&mut message, first);
    append(&mut message, second);
    append(&mut message, third);
    message
}

/// The digest of `first` followed by `second` and `third`. The parts may be
/// secret: the buffer in which they are laid end to end is erased before it
/// is released.
pub fn sha512_of_three(first: &[u8], second: &[u8], third: &[u8]) -> (digest: [u8; 64])
    ensures
        digest@ == sha512_digest(first@ + second@ + third@),
{
    let mut message = concatenation(first, second, third);
    let digest = sha512(message.as_slice());
    erase(&mut message);
    digest
}

/// The digest of `first` followed by `second`. The parts may be secret: the
/// buffer in which they are laid end to end is erased before it is released.
pub fn sha512_of_two(first: &[u8], second: &[u8]) -> (digest: [u8; 64])
    ensures
        digest@ == sha512_digest(first@ + second@),
{
    let nothing: Vec<u8> = Vec::new();
    assert(first@ + second@ + nothing@ =~= first@ + second@);
    sha512_of_three(first, second, nothing.as_slice())
}

} // verus!

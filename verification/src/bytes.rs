//! Fixed-width byte strings and their little-endian integer values.

use vstd::prelude::*;

verus! {

/// The integer that `bytes` encodes in little-endian order.
pub open spec fn le_value(bytes: Seq<u8>) -> nat
    decreases bytes.len(),
{
    if bytes.len() == 0 {
        0
    } else {
        bytes[0] as nat + 256 * le_value(bytes.skip(1))
    }
}

/// The `len`-byte little-endian encoding of `value` (of its low `8 * len` bits).
pub open spec fn le_encoding(value: nat, len: nat) -> Seq<u8>
    decreases len,
{
    if len == 0 {
        Seq::empty()
    } else {
        seq![(value % 256) as u8] + le_encoding(value / 256, (len - 1) as nat)
    }
}

/// `256^n`.
pub open spec fn pow256(n: nat) -> nat
    decreases n,
{
    if n == 0 {
        1
    } else {
        256 * pow256((n - 1) as nat)
    }
}

/// The value of a byte string is below `256^len`.
pub proof fn lemma_le_value_bound(bytes: Seq<u8>)
    ensures
        le_value(bytes) < pow256(bytes.len()),
    decreases bytes.len(),
{
    if bytes.len() > 0 {
        lemma_le_value_bound(bytes.skip(1));
    }
}

/// The last byte carries the weight `256^(len - 1)`.
pub proof fn lemma_le_value_last(bytes: Seq<u8>)
    requires
        bytes.len() > 0,
    ensures
        le_value(bytes) == le_value(bytes.drop_last()) + pow256((bytes.len() - 1) as nat)
            * bytes.last(),
    decreases bytes.len(),
{
    let front = bytes.drop_last();
    let weight = pow256((bytes.len() - 1) as nat);
    if bytes.len() == 1 {
        assert(le_value(bytes.skip(1)) == 0);
        assert(le_value(front) == 0);
        assert(weight == 1);
    } else {
        let rest = bytes.skip(1);
        lemma_le_value_last(rest);
        assert(rest.drop_last() =~= front.skip(1));
        let inner = le_value(front.skip(1));
        let w = pow256((rest.len() - 1) as nat);
        let last = bytes.last() as nat;
        assert(le_value(rest) == inner + w * last);
        assert(le_value(front) == bytes[0] as nat + 256 * inner);
        assert(weight == 256 * w);
        assert(256 * (inner + w * last) == 256 * inner + (256 * w) * last) by (nonlinear_arith);
    }
}

/// The low three bits of a value are those of its first byte.
pub proof fn lemma_le_value_mod_8(bytes: Seq<u8>)
    requires
        bytes.len() > 0,
    ensures
        le_value(bytes) % 8 == bytes[0] % 8,
{
    let rest = le_value(bytes.skip(1));
    let first = bytes[0] as nat;
    assert(le_value(bytes) == first + 256 * rest);
    assert((first + 256 * rest) % 8 == first % 8) by (nonlinear_arith);
}

/// An encoding has the length that was asked for.
pub proof fn lemma_encoding_len(value: nat, len: nat)
    ensures
        le_encoding(value, len).len() == len,
    decreases len,
{
    if len > 0 {
        lemma_encoding_len(value / 256, (len - 1) as nat);
    }
}

/// A value that fits into `len` bytes is the value of its encoding.
pub proof fn lemma_value_of_encoding(value: nat, len: nat)
    requires
        value < pow256(len),
    ensures
        le_value(le_encoding(value, len)) == value,
    decreases len,
{
    if len > 0 {
        let rest = le_encoding(value / 256, (len - 1) as nat);
        lemma_value_of_encoding(value / 256, (len - 1) as nat);
        let encoding = le_encoding(value, len);
        assert(encoding.skip(1) =~= rest);
        assert(encoding[0] == (value % 256) as u8);
    }
}

/// A byte string is the encoding of its own value: nothing but `bytes` has
/// the length of `bytes` and the value of `bytes`.
pub proof fn lemma_encoding_of_value(bytes: Seq<u8>)
    ensures
        le_encoding(le_value(bytes), bytes.len()) == bytes,
    decreases bytes.len(),
{
    if bytes.len() > 0 {
        let rest = bytes.skip(1);
        lemma_encoding_of_value(rest);
        let value = le_value(bytes);
        assert(value == bytes[0] as nat + 256 * le_value(rest));
        assert(value % 256 == bytes[0] as nat);
        assert(value / 256 == le_value(rest));
        assert(le_encoding(value, bytes.len()) =~= bytes);
    }
}

/// The 32-byte array whose elements are those of `bytes`.
pub open spec fn array32_of(bytes: Seq<u8>) -> [u8; 32] {
    choose|array: [u8; 32]| array@ == bytes
}

/// The 64-byte array whose elements are those of `bytes`.
pub open spec fn array64_of(bytes: Seq<u8>) -> [u8; 64] {
    choose|array: [u8; 64]| array@ == bytes
}

/// An array is determined by its elements.
pub proof fn lemma_array32_of(array: [u8; 32])
    ensures
        array32_of(array@) == array,
{
    assert(array32_of(array@)@ == array@);
    assert(array32_of(array@) =~= array);
}

/// An array is determined by its elements.
pub proof fn lemma_array64_of(array: [u8; 64])
    ensures
        array64_of(array@) == array,
{
    assert(array64_of(array@)@ == array@);
    assert(array64_of(array@) =~= array);
}

/// Copies the 32 bytes of `source` that start at `offset` into an array.
pub fn copy32(source: &[u8], offset: usize) -> (array: [u8; 32])
    requires
        offset + 32 <= source@.len(),
    ensures
        array@ == source@.subrange(offset as int, offset + 32),
{
    let len: usize = source.len();
    let mut array = [0u8; 32];
    let mut i: usize = 0;
    while i < 32
        invariant
            i <= 32,
            len == source@.len(),
            offset + 32 <= len,
            forall|j: int| 0 <= j < i ==> array@[j] == source@[offset + j],
        decreases 32 - i,
    {
        array[i] = source[offset + i];
        i += 1;
    }
    assert(array@ =~= source@.subrange(offset as int, offset + 32));
    array
}

/// Lays two 32-byte halves side by side, `low` first.
pub fn join64(low: &[u8; 32], high: &[u8; 32]) -> (array: [u8; 64])
    ensures
        array@ == low@ + high@,
{
    let mut array = [0u8; 64];
    let mut i: usize = 0;
    while i < 32
        invariant
            i <= 32,
            forall|j: int| 0 <= j < i ==> array@[j] == low@[j],
            forall|j: int| 0 <= j < i ==> array@[32 + j] == high@[j],
        decreases 32 - i,
    {
        array[i] = low[i];
        array[32 + i] = high[i];
        i += 1;
    }
    assert(array@ =~= low@ + high@);
    array
}

} // verus!

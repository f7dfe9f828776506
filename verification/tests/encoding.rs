use ed25519_zebra::bytes::{copy32, join64};
use ed25519_zebra::{Error, Signature, VerificationKeyBytes};

fn counting(len: usize) -> Vec<u8> {
    (0..len).map(|i| i as u8).collect()
}

fn counting64() -> [u8; 64] {
    let mut bytes = [0u8; 64];
    bytes.copy_from_slice(&counting(64));
    bytes
}

fn counting32() -> [u8; 32] {
    let mut bytes = [0u8; 32];
    bytes.copy_from_slice(&counting(32));
    bytes
}

#[test]
fn signature_from_array_splits_into_halves() {
    let sig = Signature::from(counting64());
    assert_eq!(&sig.R_bytes[..], &counting(64)[..32]);
    assert_eq!(&sig.s_bytes[..], &counting(64)[32..]);
    assert_eq!(sig.R_bytes[0], 0);
    assert_eq!(sig.R_bytes[31], 31);
    assert_eq!(sig.s_bytes[0], 32);
    assert_eq!(sig.s_bytes[31], 63);
}

#[test]
fn signature_into_array_joins_halves() {
    let sig = Signature { R_bytes: [0xaa; 32], s_bytes: [0x55; 32] };
    let bytes: [u8; 64] = sig.into();
    assert_eq!(&bytes[..32], &[0xaa; 32][..]);
    assert_eq!(&bytes[32..], &[0x55; 32][..]);
}

#[test]
fn signature_round_trips_through_array() {
    let bytes = counting64();
    assert_eq!(<[u8; 64]>::from(Signature::from(bytes)), bytes);
    let sig = Signature { R_bytes: [7; 32], s_bytes: [9; 32] };
    assert_eq!(Signature::from(<[u8; 64]>::from(sig)), sig);
}

#[test]
fn signature_accepts_any_bytes() {
    let sig = Signature::from([0xff; 64]);
    assert_eq!(sig.R_bytes, [0xff; 32]);
    assert_eq!(sig.s_bytes, [0xff; 32]);
    let zero = Signature::from([0u8; 64]);
    assert_eq!(<[u8; 64]>::from(zero), [0u8; 64]);
}

#[test]
fn signature_try_from_takes_exactly_64_bytes() {
    let sig = Signature::try_from(&counting(64)[..]).unwrap();
    assert_eq!(sig, Signature::from(counting64()));
}

#[test]
fn signature_try_from_rejects_63_bytes() {
    assert_eq!(Signature::try_from(&counting(63)[..]), Err(Error::InvalidSliceLength));
}

#[test]
fn signature_try_from_rejects_65_bytes() {
    assert_eq!(Signature::try_from(&counting(65)[..]), Err(Error::InvalidSliceLength));
}

#[test]
fn signature_try_from_rejects_other_lengths() {
    for len in [0usize, 1, 31, 32, 33, 62, 66, 128, 1000] {
        assert_eq!(Signature::try_from(&counting(len)[..]), Err(Error::InvalidSliceLength));
    }
}

#[test]
fn key_bytes_try_from_takes_exactly_32_bytes() {
    let bytes = VerificationKeyBytes::try_from(&counting(32)[..]).unwrap();
    assert_eq!(bytes, VerificationKeyBytes::from(counting32()));
    assert_eq!(<[u8; 32]>::from(bytes), counting32());
}

#[test]
fn key_bytes_try_from_rejects_31_bytes() {
    assert_eq!(VerificationKeyBytes::try_from(&counting(31)[..]), Err(Error::InvalidSliceLength));
}

#[test]
fn key_bytes_try_from_rejects_33_bytes() {
    assert_eq!(VerificationKeyBytes::try_from(&counting(33)[..]), Err(Error::InvalidSliceLength));
}

#[test]
fn key_bytes_try_from_rejects_other_lengths() {
    for len in [0usize, 1, 16, 30, 34, 63, 64, 65, 500] {
        assert_eq!(
            VerificationKeyBytes::try_from(&counting(len)[..]),
            Err(Error::InvalidSliceLength)
        );
    }
}

#[test]
fn key_bytes_round_trip_through_array() {
    let bytes = counting32();
    let refined = VerificationKeyBytes::from(bytes);
    assert_eq!(<[u8; 32]>::from(refined), bytes);
    let back: [u8; 32] = refined.into();
    assert_eq!(back, bytes);
}

#[test]
fn key_bytes_do_not_validate_the_point() {
    // Neither all ones nor the byte string of 2 encodes a point, yet both are
    // legal as bytes.
    let mut two = [0u8; 32];
    two[0] = 2;
    assert_eq!(<[u8; 32]>::from(VerificationKeyBytes::from(two)), two);
    assert_eq!(<[u8; 32]>::from(VerificationKeyBytes::from([0xff; 32])), [0xff; 32]);
}

#[test]
fn key_bytes_as_ref_shows_the_bytes() {
    let refined = VerificationKeyBytes::from(counting32());
    assert_eq!(refined.as_ref(), &counting(32)[..]);
}

#[test]
fn key_bytes_compare_as_their_arrays() {
    let low = VerificationKeyBytes::from([1u8; 32]);
    let high = VerificationKeyBytes::from([2u8; 32]);
    assert!(low < high);
    assert_ne!(low, high);
    assert_eq!(low, VerificationKeyBytes::from([1u8; 32]));
}

#[test]
fn copy32_takes_the_window_at_the_offset() {
    let source = counting(100);
    assert_eq!(copy32(&source, 0), counting32());
    let window = copy32(&source, 68);
    assert_eq!(window[0], 68);
    assert_eq!(window[31], 99);
    assert_eq!(&window[..], &source[68..100]);
}

#[test]
fn join64_puts_the_low_half_first() {
    let joined = join64(&[1u8; 32], &[2u8; 32]);
    assert_eq!(&joined[..32], &[1u8; 32][..]);
    assert_eq!(&joined[32..], &[2u8; 32][..]);
}

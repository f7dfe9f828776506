use ed25519_zebra::{Signature, SigningKey, VerificationKey, VerificationKeyBytes};

const RFC_SEED_1: [u8; 32] = [
    0x9d, 0x61, 0xb1, 0x9d, 0xef, 0xfd, 0x5a, 0x60, 0xba, 0x84, 0x4a, 0xf4, 0x92, 0xec, 0x2c, 0xc4,
    0x44, 0x49, 0xc5, 0x69, 0x7b, 0x32, 0x69, 0x19, 0x70, 0x3b, 0xac, 0x03, 0x1c, 0xae, 0x7f, 0x60,
];

const RFC_KEY_1: [u8; 32] = [
    0xd7, 0x5a, 0x98, 0x01, 0x82, 0xb1, 0x0a, 0xb7, 0xd5, 0x4b, 0xfe, 0xd3, 0xc9, 0x64, 0x07, 0x3a,
    0x0e, 0xe1, 0x72, 0xf3, 0xda, 0xa6, 0x23, 0x25, 0xaf, 0x02, 0x1a, 0x68, 0xf7, 0x07, 0x51, 0x1a,
];

const RFC_SIGNATURE_1: [u8; 64] = [
    0xe5, 0x56, 0x43, 0x00, 0xc3, 0x60, 0xac, 0x72, 0x90, 0x86, 0xe2, 0xcc, 0x80, 0x6e, 0x82, 0x8a,
    0x84, 0x87, 0x7f, 0x1e, 0xb8, 0xe5, 0xd9, 0x74, 0xd8, 0x73, 0xe0, 0x65, 0x22, 0x49, 0x01, 0x55,
    0x5f, 0xb8, 0x82, 0x15, 0x90, 0xa3, 0x3b, 0xac, 0xc6, 0x1e, 0x39, 0x70, 0x1c, 0xf9, 0xb4, 0x6b,
    0xd2, 0x5b, 0xf5, 0xf0, 0x59, 0x5b, 0xbe, 0x24, 0x65, 0x51, 0x41, 0x43, 0x8e, 0x7a, 0x10, 0x0b,
];

const RFC_SEED_2: [u8; 32] = [
    0x4c, 0xcd, 0x08, 0x9b, 0x28, 0xff, 0x96, 0xda, 0x9d, 0xb6, 0xc3, 0x46, 0xec, 0x11, 0x4e, 0x0f,
    0x5b, 0x8a, 0x31, 0x9f, 0x35, 0xab, 0xa6, 0x24, 0xda, 0x8c, 0xf6, 0xed, 0x4f, 0xb8, 0xa6, 0xfb,
];

const RFC_KEY_2: [u8; 32] = [
    0x3d, 0x40, 0x17, 0xc3, 0xe8, 0x43, 0x89, 0x5a, 0x92, 0xb7, 0x0a, 0xa7, 0x4d, 0x1b, 0x7e, 0xbc,
    0x9c, 0x98, 0x2c, 0xcf, 0x2e, 0xc4, 0x96, 0x8c, 0xc0, 0xcd, 0x55, 0xf1, 0x2a, 0xf4, 0x66, 0x0c,
];

const RFC_SIGNATURE_2: [u8; 64] = [
    0x92, 0xa0, 0x09, 0xa9, 0xf0, 0xd4, 0xca, 0xb8, 0x72, 0x0e, 0x82, 0x0b, 0x5f, 0x64, 0x25, 0x40,
    0xa2, 0xb2, 0x7b, 0x54, 0x16, 0x50, 0x3f, 0x8f, 0xb3, 0x76, 0x22, 0x23, 0xeb, 0xdb, 0x69, 0xda,
    0x08, 0x5a, 0xc1, 0xe4, 0x3e, 0x15, 0x99, 0x6e, 0x45, 0x8f, 0x36, 0x13, 0xd0, 0xf1, 0x1d, 0x8c,
    0x38, 0x7b, 0x2e, 0xae, 0xb4, 0x30, 0x2a, 0xee, 0xb0, 0x0d, 0x29, 0x16, 0x12, 0xbb, 0x0c, 0x00,
];

const ZERO_SEED_KEY: [u8; 32] = [
    0x3b, 0x6a, 0x27, 0xbc, 0xce, 0xb6, 0xa4, 0x2d, 0x62, 0xa3, 0xa8, 0xd0, 0x2a, 0x6f, 0x0d, 0x73,
    0x65, 0x32, 0x15, 0x77, 0x1d, 0xe2, 0x43, 0xa6, 0x3a, 0xc0, 0x48, 0xa1, 0x8b, 0x59, 0xda, 0x29,
];

const ZERO_SEED_ZCASH_SIGNATURE: [u8; 64] = [
    0x23, 0x9b, 0xf0, 0x3b, 0x93, 0x92, 0x10, 0x5f, 0xb6, 0xe7, 0x35, 0xa1, 0xa9, 0x05, 0xe0, 0x52,
    0x77, 0xed, 0xac, 0x55, 0xae, 0x48, 0x68, 0x72, 0xb3, 0x98, 0x68, 0x55, 0xc8, 0xc1, 0x51, 0xdd,
    0x69, 0xc2, 0x6e, 0x42, 0x39, 0xd9, 0xe5, 0x81, 0x31, 0x30, 0xa4, 0xb0, 0xb7, 0x64, 0x58, 0x56,
    0xcd, 0xe4, 0x82, 0x41, 0xb1, 0xf1, 0x4a, 0x5c, 0xc1, 0x66, 0xf1, 0xbd, 0x62, 0xb8, 0xf9, 0x08,
];

/// The order of the basepoint, most significant byte first.
const GROUP_ORDER_BE: [u8; 32] = [
    0x10, 0x00, 0x00, 0x00, 0x00, 0x00, 0x00, 0x00, 0x00, 0x00, 0x00, 0x00, 0x00, 0x00, 0x00, 0x00,
    0x14, 0xde, 0xf9, 0xde, 0xa2, 0xf7, 0x9c, 0xd6, 0x58, 0x12, 0x63, 0x1a, 0x5c, 0xf5, 0xd3, 0xed,
];

fn seed_of(tag: u8) -> [u8; 32] {
    let mut seed = [0u8; 32];
    for (i, byte) in seed.iter_mut().enumerate() {
        *byte = tag.wrapping_mul(31).wrapping_add(i as u8);
    }
    seed
}

fn key_bytes(sk: &SigningKey) -> [u8; 32] {
    VerificationKeyBytes::from(sk).into()
}

#[test]
fn derivation_matches_the_first_rfc8032_vector() {
    let sk = SigningKey::from(RFC_SEED_1);
    assert_eq!(key_bytes(&sk), RFC_KEY_1);
    assert_eq!(<[u8; 64]>::from(sk.sign(b"")), RFC_SIGNATURE_1);
}

#[test]
fn derivation_matches_the_second_rfc8032_vector() {
    let sk = SigningKey::from(RFC_SEED_2);
    assert_eq!(key_bytes(&sk), RFC_KEY_2);
    assert_eq!(<[u8; 64]>::from(sk.sign(&[0x72])), RFC_SIGNATURE_2);
}

#[test]
fn zero_seed_gives_the_known_key_and_signature() {
    let sk = SigningKey::from([0u8; 32]);
    assert_eq!(key_bytes(&sk), ZERO_SEED_KEY);
    assert_eq!(<[u8; 64]>::from(sk.sign(b"Zcash")), ZERO_SEED_ZCASH_SIGNATURE);
}

#[test]
fn every_seed_is_accepted() {
    for seed in [[0u8; 32], [0xff; 32], [0x80; 32], seed_of(3)] {
        let sk = SigningKey::from(seed);
        assert_eq!(sk.as_ref(), &seed[..]);
    }
}

#[test]
fn export_gives_back_the_seed() {
    for tag in 0..16u8 {
        let seed = seed_of(tag);
        assert_eq!(<[u8; 32]>::from(SigningKey::from(seed)), seed);
    }
    assert_eq!(<[u8; 32]>::from(SigningKey::from([0u8; 32])), [0u8; 32]);
    assert_eq!(<[u8; 32]>::from(SigningKey::from([0xff; 32])), [0xff; 32]);
}

#[test]
fn as_ref_shows_the_seed() {
    let sk = SigningKey::from(RFC_SEED_1);
    assert_eq!(sk.as_ref(), &RFC_SEED_1[..]);
}

#[test]
fn derivation_is_deterministic() {
    for tag in 0..8u8 {
        let first = SigningKey::from(seed_of(tag));
        let second = SigningKey::from(seed_of(tag));
        assert_eq!(key_bytes(&first), key_bytes(&second));
    }
}

#[test]
fn different_seeds_give_different_keys() {
    assert_ne!(key_bytes(&SigningKey::from(seed_of(1))), key_bytes(&SigningKey::from(seed_of(2))));
    assert_ne!(key_bytes(&SigningKey::from(RFC_SEED_1)), key_bytes(&SigningKey::from(RFC_SEED_2)));
}

#[test]
fn signing_twice_gives_identical_signatures() {
    for tag in 0..8u8 {
        let sk = SigningKey::from(seed_of(tag));
        for msg in [&b""[..], &b"Zcash"[..], &[tag; 200][..]] {
            let first = sk.sign(msg);
            let second = sk.sign(msg);
            assert_eq!(first, second);
            assert_eq!(<[u8; 64]>::from(first), <[u8; 64]>::from(second));
        }
    }
}

#[test]
fn keys_of_the_same_seed_sign_identically() {
    for tag in 0..8u8 {
        let first = SigningKey::from(seed_of(tag)).sign(b"the same message");
        let second = SigningKey::from(seed_of(tag)).sign(b"the same message");
        assert_eq!(<[u8; 64]>::from(first), <[u8; 64]>::from(second));
    }
}

#[test]
fn signing_does_not_change_the_key() {
    let sk = SigningKey::from(RFC_SEED_1);
    let before = sk.sign(b"");
    for i in 0..10u8 {
        sk.sign(&[i; 17]);
    }
    assert_eq!(sk.sign(b""), before);
    assert_eq!(<[u8; 64]>::from(before), RFC_SIGNATURE_1);
    assert_eq!(key_bytes(&sk), RFC_KEY_1);
    assert_eq!(sk.as_ref(), &RFC_SEED_1[..]);
}

#[test]
fn different_messages_give_different_signatures() {
    let sk = SigningKey::from([0u8; 32]);
    let zcash = sk.sign(b"Zcash");
    let other = sk.sign(b"Zcash!");
    assert_ne!(zcash, other);
    assert_ne!(zcash.R_bytes, other.R_bytes);
    assert_ne!(zcash.s_bytes, other.s_bytes);
}

#[test]
fn different_keys_sign_differently() {
    let first = SigningKey::from(seed_of(1)).sign(b"Zcash");
    let second = SigningKey::from(seed_of(2)).sign(b"Zcash");
    assert_ne!(first, second);
}

#[test]
fn copies_of_a_key_sign_identically() {
    let sk = SigningKey::from(seed_of(9));
    let copy = sk;
    assert_eq!(sk.sign(b"Zcash"), copy.sign(b"Zcash"));
}

#[test]
fn the_response_is_below_the_group_order() {
    for tag in 0..16u8 {
        let sig = SigningKey::from(seed_of(tag)).sign(&[tag; 33]);
        let mut response_be = sig.s_bytes;
        response_be.reverse();
        assert!(response_be < GROUP_ORDER_BE);
    }
}

#[test]
fn long_and_empty_messages_can_be_signed() {
    let sk = SigningKey::from(seed_of(5));
    let vk = VerificationKey::from(&sk);
    let long = vec![0xabu8; 100_000];
    assert_eq!(vk.verify(&sk.sign(&long), &long), Ok(()));
    assert_eq!(vk.verify(&sk.sign(b""), b""), Ok(()));
}

#[test]
fn the_cached_verification_key_is_the_encoded_one() {
    let sk = SigningKey::from(RFC_SEED_2);
    let vk = VerificationKey::from(&sk);
    assert_eq!(<[u8; 32]>::from(vk), RFC_KEY_2);
    assert_eq!(<[u8; 32]>::from(VerificationKeyBytes::from(vk)), RFC_KEY_2);
    assert_eq!(VerificationKeyBytes::from(&sk), VerificationKeyBytes::from(RFC_KEY_2));
    assert_eq!(vk.as_ref(), &RFC_KEY_2[..]);
}

#[test]
fn zeroize_erases_the_seed() {
    let mut sk = SigningKey::from(RFC_SEED_1);
    sk.zeroize();
    assert_eq!(sk.as_ref(), &[0u8; 32][..]);
    assert_eq!(<[u8; 32]>::from(sk), [0u8; 32]);
}

#[test]
fn zeroize_erases_the_scalar_and_the_prefix() {
    let mut sk = SigningKey::from(RFC_SEED_1);
    let vk = VerificationKey::from(&sk);
    sk.zeroize();
    // With a zero prefix the nonce no longer depends on the key, and with a
    // zero scalar the response is the nonce itself: the signature is that of
    // any other erased key, and the old verification key rejects it.
    let mut other = SigningKey::from(RFC_SEED_2);
    other.zeroize();
    let sig = sk.sign(b"");
    assert_ne!(<[u8; 64]>::from(sig), RFC_SIGNATURE_1);
    assert_eq!(sig.R_bytes, other.sign(b"").R_bytes);
    assert!(vk.verify(&sig, b"").is_err());
}

#[test]
fn zeroize_keeps_the_verification_key() {
    let mut sk = SigningKey::from(RFC_SEED_1);
    sk.zeroize();
    assert_eq!(key_bytes(&sk), RFC_KEY_1);
    let vk = VerificationKey::from(&sk);
    assert_eq!(vk.verify(&Signature::from(RFC_SIGNATURE_1), b""), Ok(()));
}

#[test]
fn zeroize_leaves_other_copies_alone() {
    let sk = SigningKey::from(RFC_SEED_1);
    let mut copy = sk;
    copy.zeroize();
    assert_eq!(sk.as_ref(), &RFC_SEED_1[..]);
    assert_eq!(<[u8; 64]>::from(sk.sign(b"")), RFC_SIGNATURE_1);
}

//! End-to-end tests of the cryptographic identity layer: scheme flags,
//! codecs, signing, verification and key derivation.

use nanodb::address::NanoAddress;
use nanodb::error::NanoError;
use nanodb::key_derive::derive_key_pair_from_path;
use nanodb::key_derive::validate_path;
use nanodb::key_derive::DerivationPath;
use nanodb::key_derive::PathComponent;
use nanodb::keypair::KeyPair;
use nanodb::nano_verifier::NanoVerifier;
use nanodb::public_key::NanoPublicKey;
use nanodb::signature::Signature;
use nanodb::signature_scheme::SignatureScheme;
use nanodb::signer::NanoMultiSchemeSigner;

fn ed25519_test_keypair() -> KeyPair {
    KeyPair::ed25519_from_secret(&[7u8; 32])
}

fn secp256k1_test_keypair() -> KeyPair {
    KeyPair::secp256k1_from_secret(&[1u8; 32]).unwrap()
}

fn path(components: &[(u32, bool)]) -> DerivationPath {
    let mut out = Vec::new();
    for &(index, hardened) in components {
        out.push(PathComponent::new(index, hardened).unwrap());
    }
    DerivationPath { components: out }
}

#[test]
fn scheme_flags_are_stable() {
    assert_eq!(SignatureScheme::ED25519.flag(), 0x00);
    assert_eq!(SignatureScheme::Secp256k1.flag(), 0x01);
}

#[test]
fn flag_byte_round_trip() {
    assert!(matches!(
        SignatureScheme::from_flag_byte(&0x00),
        Ok(SignatureScheme::ED25519)
    ));
    assert!(matches!(
        SignatureScheme::from_flag_byte(&0x01),
        Ok(SignatureScheme::Secp256k1)
    ));
    for byte in 2u8..=255 {
        assert!(matches!(
            SignatureScheme::from_flag_byte(&byte),
            Err(NanoError::KeyCodecError)
        ));
    }
}

#[test]
fn flag_string_parsing() {
    assert!(matches!(
        SignatureScheme::from_flag("0"),
        Ok(SignatureScheme::ED25519)
    ));
    assert!(matches!(
        SignatureScheme::from_flag("1"),
        Ok(SignatureScheme::Secp256k1)
    ));
    assert!(matches!(
        SignatureScheme::from_flag("2"),
        Err(NanoError::KeyCodecError)
    ));
    assert!(matches!(
        SignatureScheme::from_flag("abc"),
        Err(NanoError::KeyCodecError)
    ));
    assert!(matches!(
        SignatureScheme::from_flag(""),
        Err(NanoError::KeyCodecError)
    ));
    assert!(matches!(
        SignatureScheme::from_flag("999"),
        Err(NanoError::KeyCodecError)
    ));
    // Decimal parsing follows the usual conventions: an optional plus
    // sign and leading zeros are accepted.
    assert!(matches!(
        SignatureScheme::from_flag("+1"),
        Ok(SignatureScheme::Secp256k1)
    ));
    assert!(matches!(
        SignatureScheme::from_flag("01"),
        Ok(SignatureScheme::Secp256k1)
    ));
}

#[test]
fn public_key_base64_round_trip() {
    for kp in [ed25519_test_keypair(), secp256k1_test_keypair()] {
        let pk = kp.public();
        let encoded = pk.encode_base64();
        let decoded = NanoPublicKey::decode_base64(&encoded).unwrap();
        assert_eq!(decoded, pk);
    }
}

#[test]
fn public_key_decode_rejects_garbage() {
    assert!(NanoPublicKey::decode_base64("!!!not base64!!!").is_err());
    assert!(NanoPublicKey::decode_base64("").is_err());
    // A valid base64 string (33 bytes of 0x09) whose flag byte is unknown.
    let bad = "CQkJCQkJCQkJCQkJCQkJCQkJCQkJCQkJCQkJCQkJCQkJ";
    assert!(matches!(
        NanoPublicKey::decode_base64(bad),
        Err(NanoError::KeyCodecError)
    ));
    // Known flag (five zero bytes), wrong key length.
    let short = "AAAAAAA=";
    assert!(NanoPublicKey::decode_base64(short).is_err());
}

#[test]
fn key_pair_base64_round_trip() {
    for kp in [ed25519_test_keypair(), secp256k1_test_keypair()] {
        let encoded = kp.encode_base64();
        let decoded = KeyPair::decode_base64(&encoded).unwrap();
        assert_eq!(decoded, kp);
    }
}

#[test]
fn key_pair_decode_rejects_bad_input() {
    assert!(KeyPair::decode_base64("&&&").is_err());
    // 33 bytes of 0x07: an unknown flag byte.
    let bad_flag = "BwcHBwcHBwcHBwcHBwcHBwcHBwcHBwcHBwcHBwcHBwcH";
    assert!(matches!(
        KeyPair::decode_base64(bad_flag),
        Err(NanoError::KeyCodecError)
    ));
    // 16 zero bytes: the wrong total length.
    let wrong_len = "AAAAAAAAAAAAAAAAAAAAAA==";
    assert!(KeyPair::decode_base64(wrong_len).is_err());
    // A secp256k1 export whose scalar (all 0xff) is out of range.
    let bad_scalar = "Af//////////////////////////////////////////";
    assert!(matches!(
        KeyPair::decode_base64(bad_scalar),
        Err(NanoError::KeyCodecError)
    ));
}

#[test]
fn signature_byte_round_trip() {
    for kp in [ed25519_test_keypair(), secp256k1_test_keypair()] {
        let sig = kp.try_sign(b"round trip").unwrap();
        let decoded = Signature::from_bytes(sig.as_ref()).unwrap();
        assert_eq!(decoded, sig);
    }
}

#[test]
fn signature_lengths_match_scheme() {
    let ed = ed25519_test_keypair().try_sign(b"m").unwrap();
    assert_eq!(ed.as_ref().len(), 97);
    assert_eq!(ed.as_ref()[0], 0x00);
    let secp = secp256k1_test_keypair().try_sign(b"m").unwrap();
    assert_eq!(secp.as_ref().len(), 99);
    assert_eq!(secp.as_ref()[0], 0x01);
}

#[test]
fn signature_decode_rejects_bad_input() {
    assert!(Signature::from_bytes(&[]).is_err());
    assert!(Signature::from_bytes(&[2u8; 97]).is_err());
    assert!(Signature::from_bytes(&[0u8; 96]).is_err());
    assert!(Signature::from_bytes(&[0u8; 99]).is_err());
    assert!(Signature::from_bytes(&[1u8; 97]).is_err());
}

#[test]
fn verify_recovers_signer_address() {
    for kp in [ed25519_test_keypair(), secp256k1_test_keypair()] {
        let msg = b"self certifying";
        let sig = kp.try_sign(msg).unwrap();
        let expected = NanoAddress::from_public_key(&kp.public());
        let account = NanoVerifier::verify(msg, sig.as_ref()).unwrap();
        assert_eq!(account.addr, expected);
    }
}

#[test]
fn signer_signs_and_reports_address() {
    let kp = ed25519_test_keypair();
    let expected = NanoAddress::from_public_key(&kp.public());
    let signer = NanoMultiSchemeSigner::new(kp);
    assert_eq!(signer.get_address().unwrap(), expected);
    let sig = signer.sign(b"payload").unwrap();
    let account = NanoVerifier::verify(b"payload", sig.as_ref()).unwrap();
    assert_eq!(account.addr, expected);
}

#[test]
fn verify_rejects_wrong_message() {
    let kp = ed25519_test_keypair();
    let sig = kp.try_sign(b"original").unwrap();
    assert!(matches!(
        NanoVerifier::verify(b"tampered", sig.as_ref()),
        Err(NanoError::InvalidSignature)
    ));
}

#[test]
fn tampered_ed25519_signature_never_verifies() {
    let kp = ed25519_test_keypair();
    let msg = b"tamper detection";
    let sig = kp.try_sign(msg).unwrap();
    let bytes = sig.as_ref().to_vec();
    // Flip every bit of the signature and embedded-public-key regions.
    for i in 1..97 {
        for bit in 0..8 {
            let mut flipped = bytes.clone();
            flipped[i] ^= 1u8 << bit;
            let r = NanoVerifier::verify(msg, &flipped);
            assert!(matches!(
                r,
                Err(NanoError::InvalidSignature) | Err(NanoError::KeyCodecError)
            ));
        }
    }
}

#[test]
fn tampered_secp256k1_signature_never_verifies() {
    let kp = secp256k1_test_keypair();
    let msg = b"tamper detection";
    let sig = kp.try_sign(msg).unwrap();
    let bytes = sig.as_ref().to_vec();
    // Flip every bit of the signature region (recovery id included:
    // verification recovers the key with it and compares, so even a
    // changed recovery id fails) and of the embedded-public-key region.
    for i in 1..99 {
        for bit in 0..8 {
            let mut flipped = bytes.clone();
            flipped[i] ^= 1u8 << bit;
            let r = NanoVerifier::verify(msg, &flipped);
            assert!(matches!(
                r,
                Err(NanoError::InvalidSignature) | Err(NanoError::KeyCodecError)
            ));
        }
    }
}

#[test]
fn hashed_verification_accepts_secp256k1_output() {
    let kp = secp256k1_test_keypair();
    let msg = b"hello";
    let sig = kp.try_sign(msg).unwrap();
    // The SHA-256 digest of "hello", which the signer signed internally.
    let hashed: [u8; 32] = [
        44, 242, 77, 186, 95, 176, 163, 14, 38, 232, 59, 42, 197, 185, 226, 158, 27, 22,
        30, 92, 31, 167, 66, 94, 115, 4, 51, 98, 147, 139, 152, 36,
    ];
    let expected = NanoAddress::from_public_key(&kp.public());
    let account = NanoVerifier::verify_hashed(&hashed, sig.as_ref()).unwrap();
    assert_eq!(account.addr, expected);
}

#[test]
fn hashed_verification_rejects_ed25519_signatures() {
    let kp = ed25519_test_keypair();
    let msg = b"hello";
    let sig = kp.try_sign(msg).unwrap();
    let hashed: [u8; 32] = [
        44, 242, 77, 186, 95, 176, 163, 14, 38, 232, 59, 42, 197, 185, 226, 158, 27, 22,
        30, 92, 31, 167, 66, 94, 115, 4, 51, 98, 147, 139, 152, 36,
    ];
    assert!(matches!(
        NanoVerifier::verify_hashed(&hashed, sig.as_ref()),
        Err(NanoError::InvalidSignature)
    ));
}

#[test]
fn sign_hashed_message_is_secp256k1_only() {
    let ed = ed25519_test_keypair();
    assert!(matches!(
        ed.try_sign_hashed_message(&[0u8; 32]),
        Err(NanoError::SignError)
    ));
    let secp = secp256k1_test_keypair();
    let blob = secp.try_sign_hashed_message(&[5u8; 32]).unwrap();
    assert_eq!(blob.len(), 99);
    assert_eq!(blob[0], 0x01);
    // A payload that is not a 32-byte digest is rejected.
    assert!(matches!(
        secp.try_sign_hashed_message(b"short"),
        Err(NanoError::InvalidSignature)
    ));
    // The blob produced over the digest verifies through the hashed path.
    let account = NanoVerifier::verify_hashed(&[5u8; 32], &blob).unwrap();
    assert_eq!(account.addr, NanoAddress::from_public_key(&secp.public()));
}

#[test]
fn default_paths_succeed_for_both_schemes() {
    let seed = [9u8; 32];
    assert!(derive_key_pair_from_path(&seed, None, &SignatureScheme::ED25519).is_ok());
    assert!(derive_key_pair_from_path(&seed, None, &SignatureScheme::Secp256k1).is_ok());
}

#[test]
fn ed25519_path_shape_is_enforced() {
    let seed = [9u8; 32];
    // Non-hardened account, change and address components each fail.
    for soft in 2..5usize {
        let mut spec = vec![(44, true), (784, true), (0, true), (0, true), (0, true)];
        spec[soft].1 = false;
        let r = derive_key_pair_from_path(&seed, Some(path(&spec)), &SignatureScheme::ED25519);
        assert!(matches!(r, Err(NanoError::SignatureKeyGenError)));
    }
    // Wrong purpose or coin type fails.
    let r = derive_key_pair_from_path(
        &seed,
        Some(path(&[(54, true), (784, true), (0, true), (0, true), (0, true)])),
        &SignatureScheme::ED25519,
    );
    assert!(r.is_err());
    let r = derive_key_pair_from_path(
        &seed,
        Some(path(&[(44, true), (60, true), (0, true), (0, true), (0, true)])),
        &SignatureScheme::ED25519,
    );
    assert!(r.is_err());
    // Wrong component count fails.
    let r = derive_key_pair_from_path(
        &seed,
        Some(path(&[(44, true), (784, true), (0, true)])),
        &SignatureScheme::ED25519,
    );
    assert!(r.is_err());
    // The canonical shape, written out, succeeds.
    let r = derive_key_pair_from_path(
        &seed,
        Some(path(&[(44, true), (784, true), (0, true), (0, true), (0, true)])),
        &SignatureScheme::ED25519,
    );
    assert!(r.is_ok());
}

#[test]
fn secp256k1_path_shape_is_enforced() {
    let seed = [9u8; 32];
    // Hardened change or address fails.
    for hard in 3..5usize {
        let mut spec = vec![(54, true), (784, true), (0, true), (0, false), (0, false)];
        spec[hard].1 = true;
        let r = derive_key_pair_from_path(&seed, Some(path(&spec)), &SignatureScheme::Secp256k1);
        assert!(matches!(r, Err(NanoError::SignatureKeyGenError)));
    }
    // Non-hardened account fails.
    let r = derive_key_pair_from_path(
        &seed,
        Some(path(&[(54, true), (784, true), (0, false), (0, false), (0, false)])),
        &SignatureScheme::Secp256k1,
    );
    assert!(r.is_err());
    // The canonical shape, written out, succeeds.
    let r = derive_key_pair_from_path(
        &seed,
        Some(path(&[(54, true), (784, true), (0, true), (0, false), (0, false)])),
        &SignatureScheme::Secp256k1,
    );
    assert!(r.is_ok());
}

#[test]
fn validate_path_returns_default_when_missing() {
    let p = validate_path(&SignatureScheme::ED25519, None).unwrap();
    let want = [(44, true), (784, true), (0, true), (0, true), (0, true)];
    assert_eq!(p.components.len(), 5);
    for (c, (index, hardened)) in p.components.iter().zip(want.iter()) {
        assert_eq!(c.index, *index);
        assert_eq!(c.hardened, *hardened);
    }
    let p = validate_path(&SignatureScheme::Secp256k1, None).unwrap();
    let want = [(54, true), (784, true), (0, true), (0, false), (0, false)];
    for (c, (index, hardened)) in p.components.iter().zip(want.iter()) {
        assert_eq!(c.index, *index);
        assert_eq!(c.hardened, *hardened);
    }
}

#[test]
fn derivation_is_deterministic() {
    let seed = [3u8; 32];
    for scheme in [SignatureScheme::ED25519, SignatureScheme::Secp256k1] {
        let (a1, k1) = derive_key_pair_from_path(&seed, None, &scheme).unwrap();
        let (a2, k2) = derive_key_pair_from_path(&seed, None, &scheme).unwrap();
        assert_eq!(a1, a2);
        assert_eq!(k1, k2);
    }
}

#[test]
fn zero_seed_ed25519_default_path_address_is_pinned() {
    let seed = [0u8; 32];
    let (addr, kp) = derive_key_pair_from_path(&seed, None, &SignatureScheme::ED25519).unwrap();
    let golden: [u8; 20] = [
        177, 64, 19, 56, 179, 154, 147, 104, 16, 48, 171, 84, 237, 70, 104, 180, 108, 25, 129,
        62,
    ];
    assert_eq!(addr.to_inner(), golden);
    assert_eq!(addr, NanoAddress::from_public_key(&kp.public()));
    assert_eq!(
        addr.to_hex(),
        "0xb1401338b39a93681030ab54ed4668b46c19813e"
    );
}

#[test]
fn path_component_rejects_hardened_bit_in_index() {
    assert!(PathComponent::new(0x7fff_ffff, true).is_ok());
    assert!(matches!(
        PathComponent::new(0x8000_0000, false),
        Err(NanoError::SignatureKeyGenError)
    ));
}

#[test]
fn zero_seed_secp256k1_default_path_address_is_pinned() {
    let seed = [0u8; 32];
    let (addr, kp) = derive_key_pair_from_path(&seed, None, &SignatureScheme::Secp256k1).unwrap();
    assert_eq!(addr.to_hex(), "0x0dc8e109d5dd2bee6746ca1d6fd9919659bdb28a");
    assert_eq!(addr, NanoAddress::from_public_key(&kp.public()));
}

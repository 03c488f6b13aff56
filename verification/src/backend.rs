//! Trusted bindings to the cryptographic backend crates.
//!
//! Every function here is an `external_body` wrapper around one operation
//! of an outside crate; its contract names the operation's result with an
//! uninterpreted spec function, or states the few facts the crate's source
//! plainly shows. All cryptographic trust of the library is concentrated
//! in this module.

use vstd::prelude::*;

use fastcrypto::encoding::Encoding;
use fastcrypto::hash::HashFunction;
use fastcrypto::traits::Signer;
use fastcrypto::traits::ToFromBytes;

verus! {

/// The SHA3-256 digest (32 bytes) of a byte string.
pub uninterp spec fn sha3_256_of(data: Seq<u8>) -> Seq<u8>;

/// The SHA-256 digest (32 bytes) of a byte string.
pub uninterp spec fn sha256_of(data: Seq<u8>) -> Seq<u8>;

/// The Ed25519 public key derived from a 32-byte secret key.
pub uninterp spec fn ed25519_pub_of(secret: Seq<u8>) -> Seq<u8>;

/// Whether the bytes decode as a valid Ed25519 public key.
pub uninterp spec fn ed25519_pubkey_ok(bytes: Seq<u8>) -> bool;

/// The Ed25519 signature of a message under a 32-byte secret key.
pub uninterp spec fn ed25519_sig_of(secret: Seq<u8>, msg: Seq<u8>) -> Seq<u8>;

/// Whether an Ed25519 signature verifies a message under a public key.
pub uninterp spec fn ed25519_verifies(pubkey: Seq<u8>, msg: Seq<u8>, sig: Seq<u8>) -> bool;

/// Whether the bytes are a valid secp256k1 secret scalar.
pub uninterp spec fn secp256k1_privkey_ok(secret: Seq<u8>) -> bool;

/// The 33-byte compressed secp256k1 public key of a secret scalar.
pub uninterp spec fn secp256k1_pub_of(secret: Seq<u8>) -> Seq<u8>;

/// Whether the bytes decode as a valid secp256k1 public key.
pub uninterp spec fn secp256k1_pubkey_ok(bytes: Seq<u8>) -> bool;

/// The 65-byte recoverable ECDSA signature (`r ∥ s ∥ recovery_id`) of a
/// 32-byte digest under a secret scalar, with the RFC 6979 nonce.
pub uninterp spec fn secp256k1_sig_of(secret: Seq<u8>, digest: Seq<u8>) -> Seq<u8>;

/// Whether the bytes parse as a recoverable ECDSA signature
/// (64 compact bytes followed by a recovery id below 4).
pub uninterp spec fn secp256k1_recsig_ok(bytes: Seq<u8>) -> bool;

/// Whether a recoverable ECDSA signature verifies a 32-byte digest under
/// a secp256k1 public key: the key recovered from digest and signature
/// (recovery id included) must be exactly that key.
pub uninterp spec fn secp256k1_verifies_hashed(pubkey: Seq<u8>, digest: Seq<u8>, sig: Seq<u8>) -> bool;

/// The 32-byte SLIP-0010 Ed25519 private key derived from a seed and a
/// sequence of (implicitly hardened) child indexes.
pub uninterp spec fn slip10_key_of(seed: Seq<u8>, indexes: Seq<u32>) -> Seq<u8>;

/// Whether BIP32 extended-key derivation succeeds for a seed and a path of
/// raw child numbers (hardened bit included).
pub uninterp spec fn bip32_ok(seed: Seq<u8>, path: Seq<u32>) -> bool;

/// The 32-byte BIP32-derived private key for a seed and a path of raw
/// child numbers (hardened bit included).
pub uninterp spec fn bip32_key_of(seed: Seq<u8>, path: Seq<u32>) -> Seq<u8>;

/// The standard padded base64 encoding of a byte string.
pub uninterp spec fn base64_of(data: Seq<u8>) -> Seq<char>;

/// The bytes a base64 string decodes to, if it is well formed.
pub uninterp spec fn base64_decode_of(s: Seq<char>) -> Option<Seq<u8>>;

/// Relies on std's `String::push`: appends one character.
pub assume_specification[ String::push ](s: &mut String, ch: char)
    ensures
        final(s)@ == old(s)@.push(ch),
;

/// Relies on fastcrypto's `Sha3_256`: the 32-byte SHA3-256 digest, a
/// function of the input alone.
#[verifier::external_body]
pub(crate) fn sha3_256(data: &[u8]) -> (r: Vec<u8>)
    ensures
        r@ == sha3_256_of(data@),
        r@.len() == 32,
{
    fastcrypto::hash::Sha3_256::digest(data).to_vec()
}

/// Relies on fastcrypto's `Sha256`: the 32-byte SHA-256 digest, a
/// function of the input alone.
#[verifier::external_body]
pub(crate) fn sha256(data: &[u8]) -> (r: Vec<u8>)
    ensures
        r@ == sha256_of(data@),
        r@.len() == 32,
{
    fastcrypto::hash::Sha256::digest(data).to_vec()
}

/// Relies on fastcrypto's `Ed25519PrivateKey::from_bytes` (any 32 bytes
/// are a valid secret key) and the keypair's public component: the public
/// key is a function of the secret key, is 32 bytes long, and decodes as
/// a valid public key.
#[verifier::external_body]
pub(crate) fn ed25519_public_from_secret(secret: &[u8]) -> (r: Vec<u8>)
    requires
        secret@.len() == 32,
    ensures
        r@ == ed25519_pub_of(secret@),
        r@.len() == 32,
        ed25519_pubkey_ok(r@),
{
    let sk = fastcrypto::ed25519::Ed25519PrivateKey::from_bytes(secret).unwrap();
    let kp = fastcrypto::ed25519::Ed25519KeyPair::from(sk);
    fastcrypto::traits::KeyPair::public(&kp).as_ref().to_vec()
}

/// Relies on fastcrypto's `Ed25519PublicKey::from_bytes`: whether the
/// bytes decode as a public key; anything but 32 bytes is rejected.
#[verifier::external_body]
pub(crate) fn ed25519_check_pubkey(bytes: &[u8]) -> (r: bool)
    ensures
        r == ed25519_pubkey_ok(bytes@),
        bytes@.len() != 32 ==> !r,
{
    fastcrypto::ed25519::Ed25519PublicKey::from_bytes(bytes).is_ok()
}

/// Relies on fastcrypto's Ed25519 signing (deterministic): the 64-byte
/// signature is a function of secret key and message, and verifies under
/// the derived public key.
#[verifier::external_body]
pub(crate) fn ed25519_sign(secret: &[u8], msg: &[u8]) -> (r: Vec<u8>)
    requires
        secret@.len() == 32,
    ensures
        r@ == ed25519_sig_of(secret@, msg@),
        r@.len() == 64,
        ed25519_verifies(ed25519_pub_of(secret@), msg@, r@),
{
    let sk = fastcrypto::ed25519::Ed25519PrivateKey::from_bytes(secret).unwrap();
    let kp = fastcrypto::ed25519::Ed25519KeyPair::from(sk);
    kp.sign(msg).as_ref().to_vec()
}

/// Relies on fastcrypto's `Ed25519PublicKey::verify`: whether the
/// signature verifies the message; a malformed public key or a signature
/// of the wrong length never verifies.
#[verifier::external_body]
pub(crate) fn ed25519_verify(pubkey: &[u8], msg: &[u8], sig: &[u8]) -> (r: bool)
    ensures
        r == ed25519_verifies(pubkey@, msg@, sig@),
        !ed25519_pubkey_ok(pubkey@) ==> !r,
        sig@.len() != 64 ==> !r,
{
    let pk = match fastcrypto::ed25519::Ed25519PublicKey::from_bytes(pubkey) {
        Ok(pk) => pk,
        Err(_) => return false,
    };
    let s = match fastcrypto::ed25519::Ed25519Signature::from_bytes(sig) {
        Ok(s) => s,
        Err(_) => return false,
    };
    fastcrypto::traits::VerifyingKey::verify(&pk, msg, &s).is_ok()
}

/// Relies on secp256k1's `SecretKey::from_secret_bytes` and
/// `PublicKey::from_secret_key`: succeeds exactly when the bytes are a
/// valid secret scalar, and then returns its 33-byte compressed public
/// key, which decodes as a valid public key.
#[verifier::external_body]
pub(crate) fn secp256k1_public_from_secret(secret: &[u8]) -> (r: Option<Vec<u8>>)
    ensures
        r is Some <==> (secret@.len() == 32 && secp256k1_privkey_ok(secret@)),
        (r matches Some(v) ==> v@ == secp256k1_pub_of(secret@) && v@.len() == 33
            && secp256k1_pubkey_ok(v@)),
{
    let arr: [u8; 32] = secret.try_into().ok()?;
    let sk = secp256k1::SecretKey::from_secret_bytes(arr).ok()?;
    Some(secp256k1::PublicKey::from_secret_key(&sk).serialize().to_vec())
}

/// Relies on secp256k1's `PublicKey::from_slice`: whether the bytes
/// decode as a public key; only 33- or 65-byte encodings can.
#[verifier::external_body]
pub(crate) fn secp256k1_check_pubkey(bytes: &[u8]) -> (r: bool)
    ensures
        r == secp256k1_pubkey_ok(bytes@),
        (bytes@.len() != 33 && bytes@.len() != 65) ==> !r,
{
    secp256k1::PublicKey::from_slice(bytes).is_ok()
}

/// Relies on secp256k1's `RecoverableSignature::sign_ecdsa_recoverable`
/// (RFC 6979 deterministic nonce): the 65-byte signature
/// (`r ∥ s ∥ recovery_id`) is a function of key and digest, parses back,
/// and recovering from it yields the signing key's own public key, so it
/// verifies the digest under that key.
#[verifier::external_body]
pub(crate) fn secp256k1_sign_recoverable(secret: &[u8], digest: &[u8]) -> (r: Vec<u8>)
    requires
        secret@.len() == 32,
        secp256k1_privkey_ok(secret@),
        digest@.len() == 32,
    ensures
        r@ == secp256k1_sig_of(secret@, digest@),
        r@.len() == 65,
        secp256k1_recsig_ok(r@),
        secp256k1_verifies_hashed(secp256k1_pub_of(secret@), digest@, r@),
{
    let arr: [u8; 32] = secret.try_into().unwrap();
    let sk = secp256k1::SecretKey::from_secret_bytes(arr).unwrap();
    let msg = secp256k1::Message::from_digest(digest.try_into().unwrap());
    let sig = secp256k1::ecdsa::RecoverableSignature::sign_ecdsa_recoverable(msg, &sk);
    let (recid, compact) = sig.serialize_compact();
    let mut out = compact.to_vec();
    out.push(u8::from(recid));
    out
}

/// Relies on secp256k1's `RecoveryId::try_from` and
/// `RecoverableSignature::from_compact`: whether 65 bytes parse as a
/// recoverable signature.
#[verifier::external_body]
pub(crate) fn secp256k1_check_recoverable_sig(bytes: &[u8]) -> (r: bool)
    ensures
        r == secp256k1_recsig_ok(bytes@),
        bytes@.len() != 65 ==> !r,
{
    if bytes.len() != 65 {
        return false;
    }
    let recid = match secp256k1::ecdsa::RecoveryId::try_from(bytes[64] as i32) {
        Ok(recid) => recid,
        Err(_) => return false,
    };
    secp256k1::ecdsa::RecoverableSignature::from_compact(&bytes[..64], recid).is_ok()
}

/// Relies on secp256k1's `RecoverableSignature::recover_ecdsa`: whether
/// the key recovered from the 32-byte digest and the recoverable
/// signature (recovery id included) is exactly the given public key, so
/// a tampered recovery id recovers a different key and fails; malformed
/// keys, malformed signatures and digests of the wrong length never
/// verify.
#[verifier::external_body]
pub(crate) fn secp256k1_verify_hashed_raw(pubkey: &[u8], digest: &[u8], sig: &[u8]) -> (r: bool)
    ensures
        r == secp256k1_verifies_hashed(pubkey@, digest@, sig@),
        !secp256k1_pubkey_ok(pubkey@) ==> !r,
        !secp256k1_recsig_ok(sig@) ==> !r,
        digest@.len() != 32 ==> !r,
{
    if sig.len() != 65 || digest.len() != 32 {
        return false;
    }
    let pk = secp256k1::PublicKey::from_slice(pubkey);
    let recid = secp256k1::ecdsa::RecoveryId::try_from(sig[64] as i32);
    let msg = secp256k1::Message::from_digest(digest.try_into().unwrap());
    match (pk, recid) {
        (Ok(pk), Ok(recid)) => {
            let rec = secp256k1::ecdsa::RecoverableSignature::from_compact(&sig[..64], recid);
            rec.is_ok_and(|r| r.recover_ecdsa(msg) == Ok(pk))
        },
        _ => false,
    }
}

/// Relies on slip10_ed25519's `derive_ed25519_private_key`: the 32-byte
/// derived key is a function of seed and index sequence.
#[verifier::external_body]
pub(crate) fn slip10_derive(seed: &[u8], indexes: &[u32]) -> (r: Vec<u8>)
    ensures
        r@ == slip10_key_of(seed@, indexes@),
        r@.len() == 32,
{
    slip10_ed25519::derive_ed25519_private_key(seed, indexes).to_vec()
}

/// Relies on bip32's `ExtendedPrivateKey::derive_from_path`: derivation
/// is a function of seed and path; it fails for seeds that are not 16, 32
/// or 64 bytes long, and a derived key is always a valid secret scalar.
#[verifier::external_body]
pub(crate) fn bip32_derive(seed: &[u8], path: &[u32]) -> (r: Option<Vec<u8>>)
    ensures
        r is Some <==> bip32_ok(seed@, path@),
        (seed@.len() != 16 && seed@.len() != 32 && seed@.len() != 64) ==> r is None,
        (r matches Some(v) ==> v@ == bip32_key_of(seed@, path@) && v@.len() == 32
            && secp256k1_privkey_ok(v@)),
{
    let mut p = bip32::DerivationPath::default();
    for n in path {
        p.push(bip32::ChildNumber(*n));
    }
    let xprv = bip32::XPrv::derive_from_path(seed, &p).ok()?;
    Some(xprv.private_key().to_bytes().to_vec())
}

/// Relies on fastcrypto's `Base64::encode` (padded standard base64): the
/// encoding is a function of the bytes and decodes back to them.
#[verifier::external_body]
pub(crate) fn base64_encode(data: &[u8]) -> (r: String)
    ensures
        r@ == base64_of(data@),
        base64_decode_of(r@) == Some(data@),
{
    fastcrypto::encoding::Base64::encode(data)
}

/// Relies on fastcrypto's `Base64::decode` (padded standard base64):
/// succeeds exactly on well-formed base64 and returns the decoded bytes.
#[verifier::external_body]
pub(crate) fn base64_decode(s: &str) -> (r: Option<Vec<u8>>)
    ensures
        r is Some <==> base64_decode_of(s@) is Some,
        (r matches Some(v) ==> base64_decode_of(s@) == Some(v@)),
{
    fastcrypto::encoding::Base64::decode(s).ok()
}

} // verus!

//! The two message-level verification protocols.
//!
//! Both entry points take the raw message and the raw signature blob and
//! recover the signer's `AccountId` from the key embedded in the blob:
//! no external key lookup is involved.

use vstd::prelude::*;

use crate::address::spec_address_of;
use crate::backend;
use crate::error::NanoError;
use crate::id::AccountId;
use crate::keypair::spec_kp_public;
use crate::keypair::spec_kp_scheme;
use crate::keypair::spec_kp_wf;
use crate::keypair::KeyPair;
use crate::signature::spec_sig_bytes_ok;
use crate::signature::spec_sig_verifies;
use crate::signature::spec_sig_wf;
use crate::signature::spec_signed_blob;
use crate::signature::Signature;

verus! {

/// The embedded public key region of a raw signature blob.
pub open spec fn spec_raw_pk_bytes(raw: Seq<u8>) -> Seq<u8> {
    if raw.len() > 0 && raw[0] == 1u8 {
        raw.subrange(66, 99)
    } else {
        raw.subrange(65, 97)
    }
}

/// The raw signature region of a raw signature blob.
pub open spec fn spec_raw_sig_bytes(raw: Seq<u8>) -> Seq<u8> {
    if raw.len() > 0 && raw[0] == 1u8 {
        raw.subrange(1, 66)
    } else {
        raw.subrange(1, 65)
    }
}

/// Whether the embedded public key of a raw blob decodes as a valid key
/// of the scheme its flag byte names.
pub open spec fn spec_raw_pk_ok(raw: Seq<u8>) -> bool {
    if raw.len() > 0 && raw[0] == 1u8 {
        backend::secp256k1_pubkey_ok(spec_raw_pk_bytes(raw))
    } else {
        backend::ed25519_pubkey_ok(spec_raw_pk_bytes(raw))
    }
}

/// Whether a raw signature blob decodes and cryptographically verifies a
/// message under its own embedded key.
pub open spec fn spec_raw_verifies(raw: Seq<u8>, msg: Seq<u8>) -> bool {
    spec_sig_bytes_ok(raw) && if raw[0] == 1u8 {
        backend::secp256k1_pubkey_ok(spec_raw_pk_bytes(raw)) && backend::secp256k1_recsig_ok(
            spec_raw_sig_bytes(raw),
        ) && backend::secp256k1_verifies_hashed(
            spec_raw_pk_bytes(raw),
            backend::sha256_of(msg),
            spec_raw_sig_bytes(raw),
        )
    } else {
        backend::ed25519_pubkey_ok(spec_raw_pk_bytes(raw)) && backend::ed25519_verifies(
            spec_raw_pk_bytes(raw),
            msg,
            spec_raw_sig_bytes(raw),
        )
    }
}

/// The address a raw signature blob certifies: derived from its flag
/// byte and embedded public key.
pub open spec fn spec_raw_address(raw: Seq<u8>) -> Seq<u8> {
    if raw.len() > 0 && raw[0] == 1u8 {
        spec_address_of(1u8, spec_raw_pk_bytes(raw))
    } else {
        spec_address_of(0u8, spec_raw_pk_bytes(raw))
    }
}

/// Marker for code that consumes verification results; the entry points
/// live on `NanoVerifier`.
pub struct Verifier {}

/// The verification entry points of the identity layer.
pub struct NanoVerifier {}

impl NanoVerifier {
    /// Decodes a self-describing signature blob and verifies it against
    /// the message; on success returns the account id of the embedded
    /// key's address.
    pub fn verify(msg: &[u8], signature_raw: &[u8]) -> (r: Result<AccountId, NanoError>)
        ensures
            r is Ok <==> spec_raw_verifies(signature_raw@, msg@),
            (r matches Ok(a) ==> a.addr@ == spec_raw_address(signature_raw@)),
            !spec_sig_bytes_ok(signature_raw@) ==> r == Err::<
                AccountId,
                NanoError,
            >(NanoError::InvalidSignature),
            (spec_sig_bytes_ok(signature_raw@) && !spec_raw_pk_ok(signature_raw@)) ==> r == Err::<
                AccountId,
                NanoError,
            >(NanoError::KeyCodecError),
            (r matches Err(e) ==> e == NanoError::InvalidSignature || e
                == NanoError::KeyCodecError),
    {
        let signature = match Signature::from_bytes(signature_raw) {
            Ok(signature) => signature,
            Err(e) => {
                return Err(e);
            },
        };
        let nano_address = match signature.verify(msg) {
            Ok(nano_address) => nano_address,
            Err(e) => {
                return Err(e);
            },
        };
        Ok(AccountId::new(nano_address))
    }

    /// Verifies an already-hashed 32-byte message against the Secp256k1
    /// signature embedded in the blob; the blob must be of the Secp256k1
    /// scheme, and the hash is verified directly with no internal
    /// re-hash. On success returns the account id of the embedded key's
    /// address.
    pub fn verify_hashed(hashed: &[u8], signature_raw: &[u8]) -> (r: Result<AccountId, NanoError>)
        ensures
            r is Ok <==> (spec_sig_bytes_ok(signature_raw@) && signature_raw@[0] == 1u8
                && backend::secp256k1_pubkey_ok(spec_raw_pk_bytes(signature_raw@))
                && backend::secp256k1_recsig_ok(spec_raw_sig_bytes(signature_raw@))
                && backend::secp256k1_verifies_hashed(
                spec_raw_pk_bytes(signature_raw@),
                hashed@,
                spec_raw_sig_bytes(signature_raw@),
            )),
            (r matches Ok(a) ==> a.addr@ == spec_address_of(
                1u8,
                spec_raw_pk_bytes(signature_raw@),
            )),
            (r matches Err(e) ==> e == NanoError::InvalidSignature),
    {
        let signature = match Signature::from_bytes(signature_raw) {
            Ok(signature) => signature,
            Err(_) => {
                return Err(NanoError::InvalidSignature);
            },
        };
        let pk_bytes = signature.public_key_bytes();
        if !backend::secp256k1_check_pubkey(pk_bytes) {
            return Err(NanoError::InvalidSignature);
        }
        let sig_bytes = signature.signature_bytes();
        if !backend::secp256k1_check_recoverable_sig(sig_bytes) {
            return Err(NanoError::InvalidSignature);
        }
        match &signature {
            Signature::Secp256k1DBSignature(_) => {
                if !backend::secp256k1_verify_hashed_raw(pk_bytes, hashed, sig_bytes) {
                    return Err(NanoError::InvalidSignature);
                }
                let addr = crate::address::address_from_flag_and_key(1u8, pk_bytes);
                Ok(AccountId::new(addr))
            },
            Signature::Ed25519DBSignature(_) => Err(NanoError::InvalidSignature),
        }
    }
}


/// Self-certification: a signature a key pair produced for a message
/// (which, by `try_sign`'s contract, is well formed and verifies that
/// message) is accepted by the message-level verifier, and the account
/// id it recovers is exactly the address of the signing key pair's own
/// public key — no external key was consulted.
pub proof fn lemma_self_certification(kp: KeyPair, msg: Seq<u8>, s: Signature)
    requires
        spec_kp_wf(kp),
        spec_sig_wf(s),
        s@ == spec_signed_blob(kp, msg),
        spec_sig_verifies(s, msg),
    ensures
        spec_raw_verifies(s@, msg),
        spec_raw_address(s@) == spec_address_of(
            crate::signature_scheme::spec_flag(spec_kp_scheme(kp)),
            spec_kp_public(kp),
        ),
{
    match kp {
        KeyPair::Ed25519 { secret, public } => {
            assert(s@[0] == 0u8);
            assert(s matches Signature::Ed25519DBSignature(_));
            assert(s@.len() == 97);
            assert(crate::signature::spec_sig_pk_bytes(s) =~= public@);
            assert(spec_raw_pk_bytes(s@) == crate::signature::spec_sig_pk_bytes(s));
            assert(spec_raw_sig_bytes(s@) == crate::signature::spec_sig_sig_bytes(s));
        },
        KeyPair::Secp256k1 { secret, public } => {
            assert(s@[0] == 1u8);
            assert(s matches Signature::Secp256k1DBSignature(_));
            assert(s@.len() == 99);
            assert(crate::signature::spec_sig_pk_bytes(s) =~= public@);
            assert(spec_raw_pk_bytes(s@) == crate::signature::spec_sig_pk_bytes(s));
            assert(spec_raw_sig_bytes(s@) == crate::signature::spec_sig_sig_bytes(s));
        },
    }
}


/// Tamper containment: the account id a blob can certify depends only
/// on its flag byte and embedded public key region, never on the
/// signature region. So tampering with the signature bytes can at worst
/// make verification fail — it can never redirect a still-successful
/// verification to a different address.
pub proof fn lemma_verified_address_ignores_signature_region(raw1: Seq<u8>, raw2: Seq<u8>)
    requires
        spec_sig_bytes_ok(raw1),
        spec_sig_bytes_ok(raw2),
        raw1[0] == raw2[0],
        spec_raw_pk_bytes(raw1) == spec_raw_pk_bytes(raw2),
    ensures
        spec_raw_address(raw1) == spec_raw_address(raw2),
{
}


/// Hashed self-certification: the blob that a Secp256k1 key pair
/// produces for an already-hashed message (with the layout, parse and
/// verification facts that `try_sign_hashed_message`'s contract states)
/// satisfies exactly the acceptance condition of `verify_hashed` for
/// that digest, and the account id recovered is the address of the
/// signing key pair's own public key.
pub proof fn lemma_hashed_sign_then_verify(kp: KeyPair, h: Seq<u8>, v: Seq<u8>)
    requires
        spec_kp_wf(kp),
        kp matches KeyPair::Secp256k1 { .. },
        v == seq![1u8] + backend::secp256k1_sig_of(crate::keypair::spec_kp_secret(kp), h)
            + spec_kp_public(kp),
        backend::secp256k1_sig_of(crate::keypair::spec_kp_secret(kp), h).len() == 65,
        backend::secp256k1_recsig_ok(
            backend::secp256k1_sig_of(crate::keypair::spec_kp_secret(kp), h),
        ),
        backend::secp256k1_verifies_hashed(
            spec_kp_public(kp),
            h,
            backend::secp256k1_sig_of(crate::keypair::spec_kp_secret(kp), h),
        ),
    ensures
        spec_sig_bytes_ok(v),
        v[0] == 1u8,
        backend::secp256k1_pubkey_ok(spec_raw_pk_bytes(v)),
        backend::secp256k1_recsig_ok(spec_raw_sig_bytes(v)),
        backend::secp256k1_verifies_hashed(spec_raw_pk_bytes(v), h, spec_raw_sig_bytes(v)),
        spec_raw_address(v) == spec_address_of(1u8, spec_kp_public(kp)),
{
    match kp {
        KeyPair::Secp256k1 { secret, public } => {
            assert(v.len() == 99);
            assert(spec_raw_pk_bytes(v) =~= public@);
            assert(spec_raw_sig_bytes(v) =~= backend::secp256k1_sig_of(secret@, h));
        },
        KeyPair::Ed25519 { .. } => {},
    }
}

} // verus!

//! Key pairs tagged by their signature scheme.
//!
//! A key pair owns the private scalar for its lifetime; the public
//! component is always re-derivable from it and the two are kept
//! consistent as a type invariant. The base64 export encodes only the
//! scheme flag and the private scalar.

use vstd::prelude::*;

use crate::backend;
use crate::error::NanoError;
use crate::public_key::spec_pk_wf;
use crate::public_key::spec_scheme_of_pk;
use crate::public_key::NanoPublicKey;
use crate::signature_scheme::spec_flag;
use crate::signature_scheme::spec_from_flag_byte;
use crate::signature_scheme::SignatureScheme;
use crate::util;

verus! {

/// A private/public key pair of one of the supported schemes.
#[derive(Debug, PartialEq, Eq)]
pub enum KeyPair {
    Ed25519 { secret: [u8; 32], public: [u8; 32] },
    Secp256k1 { secret: [u8; 32], public: [u8; 33] },
}

/// The scheme of a key pair: always the active union case.
pub open spec fn spec_kp_scheme(kp: KeyPair) -> SignatureScheme {
    match kp {
        KeyPair::Ed25519 { .. } => SignatureScheme::ED25519,
        KeyPair::Secp256k1 { .. } => SignatureScheme::Secp256k1,
    }
}

/// The private scalar of a key pair.
pub open spec fn spec_kp_secret(kp: KeyPair) -> Seq<u8> {
    match kp {
        KeyPair::Ed25519 { secret, .. } => secret@,
        KeyPair::Secp256k1 { secret, .. } => secret@,
    }
}

/// The raw public key bytes of a key pair.
pub open spec fn spec_kp_public(kp: KeyPair) -> Seq<u8> {
    match kp {
        KeyPair::Ed25519 { public, .. } => public@,
        KeyPair::Secp256k1 { public, .. } => public@,
    }
}

/// A well-formed key pair: the private scalar is valid for its scheme
/// and the public component is the one derived from it.
pub open spec fn spec_kp_wf(kp: KeyPair) -> bool {
    match kp {
        KeyPair::Ed25519 { secret, public } => public@ == backend::ed25519_pub_of(secret@)
            && backend::ed25519_pubkey_ok(public@),
        KeyPair::Secp256k1 { secret, public } => backend::secp256k1_privkey_ok(secret@)
            && public@ == backend::secp256k1_pub_of(secret@) && backend::secp256k1_pubkey_ok(
            public@,
        ),
    }
}

/// Whether `bytes` form a valid key-pair export: a known flag byte
/// followed by a 32-byte private scalar valid for that scheme.
pub open spec fn spec_kp_encoding_ok(bytes: Seq<u8>) -> bool {
    bytes.len() == 33 && match spec_from_flag_byte(bytes[0]) {
        Some(SignatureScheme::ED25519) => true,
        Some(SignatureScheme::Secp256k1) => backend::secp256k1_privkey_ok(bytes.drop_first()),
        None => false,
    }
}

/// The export encoding of a key pair: its scheme flag followed by the
/// private scalar alone.
pub open spec fn spec_kp_encoding(kp: KeyPair) -> Seq<u8> {
    seq![spec_flag(spec_kp_scheme(kp))] + spec_kp_secret(kp)
}

impl KeyPair {
    /// Builds an Ed25519 key pair from a 32-byte secret key; every
    /// 32-byte string is a valid secret.
    pub fn ed25519_from_secret(secret: &[u8]) -> (r: KeyPair)
        requires
            secret@.len() == 32,
        ensures
            spec_kp_wf(r),
            spec_kp_scheme(r) == SignatureScheme::ED25519,
            spec_kp_secret(r) == secret@,
            spec_kp_public(r) == backend::ed25519_pub_of(secret@),
    {
        let public = backend::ed25519_public_from_secret(secret);
        KeyPair::Ed25519 {
            secret: util::slice_to_array::<32>(secret),
            public: util::slice_to_array::<32>(public.as_slice()),
        }
    }

    /// Builds a Secp256k1 key pair from a 32-byte secret scalar; fails
    /// on anything that is not a valid scalar.
    pub fn secp256k1_from_secret(secret: &[u8]) -> (r: Result<KeyPair, NanoError>)
        ensures
            r is Ok <==> (secret@.len() == 32 && backend::secp256k1_privkey_ok(secret@)),
            (r matches Ok(kp) ==> spec_kp_wf(kp) && spec_kp_scheme(kp)
                == SignatureScheme::Secp256k1 && spec_kp_secret(kp) == secret@),
            (r matches Err(e) ==> e == NanoError::KeyCodecError),
    {
        match backend::secp256k1_public_from_secret(secret) {
            Some(public) => Ok(
                KeyPair::Secp256k1 {
                    secret: util::slice_to_array::<32>(secret),
                    public: util::slice_to_array::<33>(public.as_slice()),
                },
            ),
            None => Err(NanoError::KeyCodecError),
        }
    }

    /// The scheme of this key pair.
    pub fn scheme(&self) -> (r: SignatureScheme)
        ensures
            r == spec_kp_scheme(*self),
    {
        match self {
            KeyPair::Ed25519 { .. } => SignatureScheme::ED25519,
            KeyPair::Secp256k1 { .. } => SignatureScheme::Secp256k1,
        }
    }

    /// The public key of this key pair.
    pub fn public(&self) -> (r: NanoPublicKey)
        requires
            spec_kp_wf(*self),
        ensures
            r@ == spec_kp_public(*self),
            spec_scheme_of_pk(r) == spec_kp_scheme(*self),
            spec_pk_wf(r),
    {
        match self {
            KeyPair::Ed25519 { public, .. } => NanoPublicKey::Ed25519(*public),
            KeyPair::Secp256k1 { public, .. } => NanoPublicKey::Secp256k1(*public),
        }
    }

    /// Exports the key pair as base64 over `flag ∥ private scalar`; the
    /// public component is never stored redundantly.
    pub fn encode_base64(&self) -> (r: String)
        ensures
            r@ == backend::base64_of(spec_kp_encoding(*self)),
            backend::base64_decode_of(r@) == Some(spec_kp_encoding(*self)),
    {
        let mut bytes: Vec<u8> = Vec::new();
        bytes.push(self.scheme().flag());
        match self {
            KeyPair::Ed25519 { secret, .. } => util::push_all(&mut bytes, secret.as_slice()),
            KeyPair::Secp256k1 { secret, .. } => util::push_all(&mut bytes, secret.as_slice()),
        }
        proof {
            assert(bytes@ =~= spec_kp_encoding(*self));
        }
        backend::base64_encode(bytes.as_slice())
    }

    /// Decodes a base64 key-pair export, checking the flag byte and the
    /// scalar's validity, and re-deriving the public component.
    pub fn decode_base64(value: &str) -> (r: Result<KeyPair, NanoError>)
        ensures
            r is Ok <==> (backend::base64_decode_of(value@) matches Some(b)
                && spec_kp_encoding_ok(b)),
            (r matches Ok(kp) ==> spec_kp_encoding(kp) == backend::base64_decode_of(
                value@,
            ).unwrap() && spec_kp_wf(kp)),
            (r matches Err(e) ==> e == NanoError::KeyCodecError),
    {
        let bytes = match backend::base64_decode(value) {
            Some(bytes) => bytes,
            None => {
                return Err(NanoError::KeyCodecError);
            },
        };
        if bytes.len() != 33 {
            return Err(NanoError::KeyCodecError);
        }
        let scheme = match SignatureScheme::from_flag_byte(&bytes[0]) {
            Ok(scheme) => scheme,
            Err(_) => {
                return Err(NanoError::KeyCodecError);
            },
        };
        let secret = util::copy_range(bytes.as_slice(), 1, 33);
        proof {
            assert(secret@ =~= bytes@.drop_first());
        }
        let kp = match scheme {
            SignatureScheme::ED25519 => KeyPair::ed25519_from_secret(secret.as_slice()),
            SignatureScheme::Secp256k1 => {
                match KeyPair::secp256k1_from_secret(secret.as_slice()) {
                    Ok(kp) => kp,
                    Err(e) => {
                        return Err(e);
                    },
                }
            },
        };
        proof {
            assert(spec_kp_encoding(kp) =~= bytes@);
        }
        Ok(kp)
    }
}


/// Codec round trip for key pairs: a well-formed key pair's export
/// encoding is decodable, and any well-formed key pair with the same
/// export is the same value, its public component re-derived from the
/// common private scalar; together with the contracts of
/// `encode_base64` and `decode_base64` this says that decoding an
/// exported key pair reconstructs it.
pub proof fn lemma_key_pair_codec_round_trip(kp1: KeyPair, kp2: KeyPair)
    requires
        spec_kp_wf(kp1),
        spec_kp_wf(kp2),
        spec_kp_encoding(kp2) == spec_kp_encoding(kp1),
    ensures
        spec_kp_encoding_ok(spec_kp_encoding(kp1)),
        kp2 == kp1,
{
    assert(spec_kp_encoding(kp1).drop_first() =~= spec_kp_secret(kp1));
    assert(spec_kp_encoding(kp2).drop_first() =~= spec_kp_secret(kp2));
    assert(spec_kp_encoding(kp1)[0] == spec_flag(spec_kp_scheme(kp1)));
    assert(spec_kp_encoding(kp2)[0] == spec_flag(spec_kp_scheme(kp2)));
    match (kp1, kp2) {
        (
            KeyPair::Ed25519 { secret: s1, public: p1 },
            KeyPair::Ed25519 { secret: s2, public: p2 },
        ) => {
            assert(s1 =~= s2);
            assert(p1 =~= p2);
        },
        (
            KeyPair::Secp256k1 { secret: s1, public: p1 },
            KeyPair::Secp256k1 { secret: s2, public: p2 },
        ) => {
            assert(s1 =~= s2);
            assert(p1 =~= p2);
        },
        _ => {},
    }
}

} // verus!

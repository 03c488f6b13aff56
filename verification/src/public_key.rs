//! Public keys tagged by their signature scheme.
//!
//! A public key is a closed union over the two curve families; the active
//! case always matches `scheme()`, and byte lengths are fixed per scheme
//! (32 bytes for Ed25519, 33 compressed bytes for Secp256k1).

use vstd::prelude::*;

use crate::backend;
use crate::error::NanoError;
use crate::signature_scheme::spec_flag;
use crate::signature_scheme::spec_from_flag_byte;
use crate::signature_scheme::SignatureScheme;
use crate::util;

verus! {

/// A public key of one of the supported schemes, as raw curve-point
/// bytes.
#[derive(Debug, Clone, PartialEq, Eq)]
pub enum NanoPublicKey {
    Ed25519([u8; 32]),
    Secp256k1([u8; 33]),
}

impl View for NanoPublicKey {
    type V = Seq<u8>;

    open spec fn view(&self) -> Seq<u8> {
        match self {
            NanoPublicKey::Ed25519(b) => b@,
            NanoPublicKey::Secp256k1(b) => b@,
        }
    }
}

/// The scheme of a public key: always the active union case.
pub open spec fn spec_scheme_of_pk(pk: NanoPublicKey) -> SignatureScheme {
    match pk {
        NanoPublicKey::Ed25519(_) => SignatureScheme::ED25519,
        NanoPublicKey::Secp256k1(_) => SignatureScheme::Secp256k1,
    }
}

/// A well-formed public key: its bytes decode as a valid curve point of
/// its scheme.
pub open spec fn spec_pk_wf(pk: NanoPublicKey) -> bool {
    match pk {
        NanoPublicKey::Ed25519(b) => backend::ed25519_pubkey_ok(b@),
        NanoPublicKey::Secp256k1(b) => backend::secp256k1_pubkey_ok(b@),
    }
}

/// Whether `bytes` form a valid self-describing public key encoding:
/// a known flag byte followed by a valid key of that scheme's length.
pub open spec fn spec_pk_encoding_ok(bytes: Seq<u8>) -> bool {
    bytes.len() > 0 && match spec_from_flag_byte(bytes[0]) {
        Some(SignatureScheme::ED25519) => bytes.len() == 33 && backend::ed25519_pubkey_ok(
            bytes.drop_first(),
        ),
        Some(SignatureScheme::Secp256k1) => bytes.len() == 34 && backend::secp256k1_pubkey_ok(
            bytes.drop_first(),
        ),
        None => false,
    }
}

/// The self-describing encoding of a public key: its scheme flag followed
/// by its raw bytes.
pub open spec fn spec_pk_encoding(pk: NanoPublicKey) -> Seq<u8> {
    seq![spec_flag(spec_scheme_of_pk(pk))] + pk@
}

impl NanoPublicKey {
    /// The flag byte of this key's scheme.
    pub fn flag(&self) -> (r: u8)
        ensures
            r == spec_flag(spec_scheme_of_pk(*self)),
    {
        self.scheme().flag()
    }

    /// The scheme of this key.
    pub fn scheme(&self) -> (r: SignatureScheme)
        ensures
            r == spec_scheme_of_pk(*self),
    {
        match self {
            NanoPublicKey::Ed25519(_) => SignatureScheme::ED25519,
            NanoPublicKey::Secp256k1(_) => SignatureScheme::Secp256k1,
        }
    }

    /// The raw key bytes.
    pub fn as_bytes(&self) -> (r: &[u8])
        ensures
            r@ == self@,
    {
        match self {
            NanoPublicKey::Ed25519(b) => b.as_slice(),
            NanoPublicKey::Secp256k1(b) => b.as_slice(),
        }
    }

    /// Builds a public key of the given scheme from raw bytes, checking
    /// the per-scheme length and that the bytes decode as a curve point.
    pub fn try_from_bytes(curve: SignatureScheme, key_bytes: &[u8]) -> (r: Result<
        NanoPublicKey,
        NanoError,
    >)
        ensures
            r is Ok <==> spec_pk_encoding_ok(seq![spec_flag(curve)] + key_bytes@),
            (r matches Ok(pk) ==> pk@ == key_bytes@ && spec_scheme_of_pk(pk) == curve
                && spec_pk_wf(pk)),
            (r matches Err(e) ==> e == NanoError::KeyCodecError),
    {
        let ghost enc = seq![spec_flag(curve)] + key_bytes@;
        proof {
            assert(enc.drop_first() =~= key_bytes@);
        }
        match curve {
            SignatureScheme::ED25519 => {
                if key_bytes.len() == 32 && backend::ed25519_check_pubkey(key_bytes) {
                    Ok(NanoPublicKey::Ed25519(util::slice_to_array::<32>(key_bytes)))
                } else {
                    Err(NanoError::KeyCodecError)
                }
            },
            SignatureScheme::Secp256k1 => {
                if key_bytes.len() == 33 && backend::secp256k1_check_pubkey(key_bytes) {
                    Ok(NanoPublicKey::Secp256k1(util::slice_to_array::<33>(key_bytes)))
                } else {
                    Err(NanoError::KeyCodecError)
                }
            },
        }
    }

    /// Encodes the key as base64 over `flag ∥ raw bytes`.
    pub fn encode_base64(&self) -> (r: String)
        ensures
            r@ == backend::base64_of(spec_pk_encoding(*self)),
            backend::base64_decode_of(r@) == Some(spec_pk_encoding(*self)),
    {
        let mut bytes: Vec<u8> = Vec::new();
        bytes.push(self.flag());
        util::push_all(&mut bytes, self.as_bytes());
        proof {
            assert(bytes@ =~= spec_pk_encoding(*self));
        }
        backend::base64_encode(bytes.as_slice())
    }

    /// Decodes a base64 string into a public key, checking the flag byte
    /// and the per-scheme key length and validity.
    pub fn decode_base64(value: &str) -> (r: Result<NanoPublicKey, NanoError>)
        ensures
            r is Ok <==> (backend::base64_decode_of(value@) matches Some(b)
                && spec_pk_encoding_ok(b)),
            (r matches Ok(pk) ==> spec_pk_encoding(pk) == backend::base64_decode_of(
                value@,
            ).unwrap() && spec_pk_wf(pk)),
            (r matches Err(e) ==> e == NanoError::KeyCodecError),
    {
        let bytes = match backend::base64_decode(value) {
            Some(bytes) => bytes,
            None => {
                return Err(NanoError::KeyCodecError);
            },
        };
        if bytes.len() == 0 {
            return Err(NanoError::KeyCodecError);
        }
        let scheme = match SignatureScheme::from_flag_byte(&bytes[0]) {
            Ok(scheme) => scheme,
            Err(_) => {
                return Err(NanoError::KeyCodecError);
            },
        };
        let rest = util::copy_range(bytes.as_slice(), 1, bytes.len());
        proof {
            assert(rest@ =~= bytes@.drop_first());
            assert(seq![spec_flag(scheme)] + rest@ =~= bytes@);
        }
        let pk = Self::try_from_bytes(scheme, rest.as_slice())?;
        proof {
            assert(spec_pk_encoding(pk) =~= bytes@);
        }
        Ok(pk)
    }
}


/// Types bound to one signature scheme.
pub trait NanoPublicKeyScheme {
    fn signature_scheme(&self) -> SignatureScheme;
}

impl NanoPublicKeyScheme for NanoPublicKey {
    /// The scheme this key belongs to.
    fn signature_scheme(&self) -> (r: SignatureScheme)
        ensures
            r == spec_scheme_of_pk(*self),
    {
        self.scheme()
    }
}


/// Codec round trip for public keys: a well-formed key's self-describing
/// encoding is decodable, and any key with the same encoding is the same
/// value; together with the contracts of `encode_base64` and
/// `decode_base64` this says that decoding an encoded key reconstructs
/// it.
pub proof fn lemma_public_key_codec_round_trip(pk1: NanoPublicKey, pk2: NanoPublicKey)
    requires
        spec_pk_wf(pk1),
        spec_pk_encoding(pk2) == spec_pk_encoding(pk1),
    ensures
        spec_pk_encoding_ok(spec_pk_encoding(pk1)),
        pk2 == pk1,
{
    assert(spec_pk_encoding(pk1).drop_first() =~= pk1@);
    assert(spec_pk_encoding(pk2).drop_first() =~= pk2@);
    assert(spec_pk_encoding(pk1)[0] == spec_flag(spec_scheme_of_pk(pk1)));
    assert(spec_pk_encoding(pk2)[0] == spec_flag(spec_scheme_of_pk(pk2)));
    match (pk1, pk2) {
        (NanoPublicKey::Ed25519(a), NanoPublicKey::Ed25519(b)) => {
            assert(a =~= b);
        },
        (NanoPublicKey::Secp256k1(a), NanoPublicKey::Secp256k1(b)) => {
            assert(a =~= b);
        },
        _ => {},
    }
}

} // verus!

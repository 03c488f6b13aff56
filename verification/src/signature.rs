//! Self-certifying binary signatures.
//!
//! A signature is a fixed-width byte array laid out as
//! `scheme_flag(1) ∥ raw_signature(N) ∥ raw_public_key(M)`, so it carries
//! its own verification key: verifying needs no external key registry,
//! and on success the signer's address is derived from the embedded key.

use vstd::prelude::*;

use crate::address::spec_address_of;
use crate::address::NanoAddress;
use crate::backend;
use crate::error::NanoError;
use crate::keypair::spec_kp_public;
use crate::keypair::spec_kp_secret;
use crate::keypair::spec_kp_wf;
use crate::keypair::KeyPair;
use crate::signature_scheme::SignatureScheme;
use crate::util;

verus! {

/// Total length of an Ed25519 signature blob: flag, 64 signature bytes,
/// 32 public key bytes.
pub const ED25519_DB_SIG_LENGTH: usize = 97;

/// Total length of a Secp256k1 signature blob: flag, 65 recoverable
/// signature bytes (64 compact plus a recovery id), 33 public key bytes.
pub const SECP256K1_DB_SIG_LENGTH: usize = 99;

/// An Ed25519 signature blob in self-describing layout.
#[derive(Clone, Debug, PartialEq, Eq, Hash)]
pub struct Ed25519DBSignature([u8; 97]);

/// A Secp256k1 signature blob in self-describing layout.
#[derive(Clone, Debug, PartialEq, Eq, Hash)]
pub struct Secp256k1DBSignature([u8; 99]);

/// A signature of one of the supported schemes.
#[derive(Clone, Debug, PartialEq, Eq, Hash)]
pub enum Signature {
    Ed25519DBSignature(Ed25519DBSignature),
    Secp256k1DBSignature(Secp256k1DBSignature),
}

impl View for Ed25519DBSignature {
    type V = Seq<u8>;

    closed spec fn view(&self) -> Seq<u8> {
        self.0@
    }
}

impl View for Secp256k1DBSignature {
    type V = Seq<u8>;

    closed spec fn view(&self) -> Seq<u8> {
        self.0@
    }
}

impl View for Signature {
    type V = Seq<u8>;

    open spec fn view(&self) -> Seq<u8> {
        match self {
            Signature::Ed25519DBSignature(s) => s@,
            Signature::Secp256k1DBSignature(s) => s@,
        }
    }
}

/// A well-formed signature value: its bytes have the fixed per-scheme
/// length and the flag byte at offset 0 matches the active union case.
pub open spec fn spec_sig_wf(sig: Signature) -> bool {
    match sig {
        Signature::Ed25519DBSignature(s) => s@.len() == 97 && s@[0] == 0u8,
        Signature::Secp256k1DBSignature(s) => s@.len() == 99 && s@[0] == 1u8,
    }
}

/// The scheme of a signature: always the active union case.
pub open spec fn spec_sig_scheme(sig: Signature) -> SignatureScheme {
    match sig {
        Signature::Ed25519DBSignature(_) => SignatureScheme::ED25519,
        Signature::Secp256k1DBSignature(_) => SignatureScheme::Secp256k1,
    }
}

/// The raw signature region of a signature blob.
pub open spec fn spec_sig_sig_bytes(sig: Signature) -> Seq<u8> {
    match sig {
        Signature::Ed25519DBSignature(s) => s@.subrange(1, 65),
        Signature::Secp256k1DBSignature(s) => s@.subrange(1, 66),
    }
}

/// The embedded public key region of a signature blob.
pub open spec fn spec_sig_pk_bytes(sig: Signature) -> Seq<u8> {
    match sig {
        Signature::Ed25519DBSignature(s) => s@.subrange(65, 97),
        Signature::Secp256k1DBSignature(s) => s@.subrange(66, 99),
    }
}

/// Whether a signature cryptographically verifies a message: the
/// embedded key must decode, the embedded signature must parse, and the
/// scheme's native verification must accept them. Secp256k1 verifies
/// over the SHA-256 digest of the message, by recovering the key from
/// the recoverable signature and comparing it to the embedded key.
pub open spec fn spec_sig_verifies(sig: Signature, msg: Seq<u8>) -> bool {
    match sig {
        Signature::Ed25519DBSignature(_) => backend::ed25519_pubkey_ok(spec_sig_pk_bytes(sig))
            && backend::ed25519_verifies(spec_sig_pk_bytes(sig), msg, spec_sig_sig_bytes(sig)),
        Signature::Secp256k1DBSignature(_) => backend::secp256k1_pubkey_ok(spec_sig_pk_bytes(sig))
            && backend::secp256k1_recsig_ok(spec_sig_sig_bytes(sig))
            && backend::secp256k1_verifies_hashed(
            spec_sig_pk_bytes(sig),
            backend::sha256_of(msg),
            spec_sig_sig_bytes(sig),
        ),
    }
}

/// The address certified by a signature: derived from the embedded
/// public key and the scheme flag.
pub open spec fn spec_sig_address(sig: Signature) -> Seq<u8> {
    spec_address_of(
        crate::signature_scheme::spec_flag(spec_sig_scheme(sig)),
        spec_sig_pk_bytes(sig),
    )
}

/// Whether `bytes` decode as a signature: a known flag byte at offset 0
/// and the exact total length of that scheme.
pub open spec fn spec_sig_bytes_ok(bytes: Seq<u8>) -> bool {
    bytes.len() > 0 && ((bytes[0] == 0u8 && bytes.len() == 97) || (bytes[0] == 1u8 && bytes.len()
        == 99))
}

/// The signature blob produced by signing `msg` with `kp`: the scheme
/// flag, the scheme's native signature (Secp256k1 signs the SHA-256
/// digest of the message), then the raw public key.
pub open spec fn spec_signed_blob(kp: KeyPair, msg: Seq<u8>) -> Seq<u8> {
    match kp {
        KeyPair::Ed25519 { secret, public } => seq![0u8] + backend::ed25519_sig_of(secret@, msg)
            + public@,
        KeyPair::Secp256k1 { secret, public } => seq![1u8] + backend::secp256k1_sig_of(
            secret@,
            backend::sha256_of(msg),
        ) + public@,
    }
}

impl Ed25519DBSignature {
    /// Signs a message with an Ed25519 key pair and assembles the
    /// self-describing blob `flag ∥ signature ∥ public key`.
    pub fn new(kp: &KeyPair, message: &[u8]) -> (r: Result<Ed25519DBSignature, NanoError>)
        requires
            spec_kp_wf(*kp),
            kp matches KeyPair::Ed25519 { .. },
        ensures
            (r matches Ok(s) ==> s@ == seq![0u8] + backend::ed25519_sig_of(
                spec_kp_secret(*kp),
                message@,
            ) + spec_kp_public(*kp)),
            r is Ok,
            (r matches Ok(s) ==> s@.len() == 97),
            (r matches Ok(s) ==> backend::ed25519_verifies(
                spec_kp_public(*kp),
                message@,
                backend::ed25519_sig_of(spec_kp_secret(*kp), message@),
            )),
    {
        match kp {
            KeyPair::Ed25519 { secret, public } => {
                let sig = backend::ed25519_sign(secret.as_slice(), message);
                let mut bytes: Vec<u8> = Vec::new();
                bytes.push(0u8);
                util::push_all(&mut bytes, sig.as_slice());
                util::push_all(&mut bytes, public.as_slice());
                proof {
                    assert(bytes@ =~= seq![0u8] + sig@ + public@);
                }
                Ok(Ed25519DBSignature(util::slice_to_array::<97>(bytes.as_slice())))
            },
            KeyPair::Secp256k1 { .. } => Err(NanoError::SignError),
        }
    }

    /// Rebuilds a blob from raw bytes; only the exact total length is
    /// checked here, the enum decoder checks the flag.
    pub fn from_bytes(bytes: &[u8]) -> (r: Result<Ed25519DBSignature, NanoError>)
        ensures
            r is Ok <==> bytes@.len() == 97,
            (r matches Ok(s) ==> s@ == bytes@),
            (r matches Err(e) ==> e == NanoError::InvalidSignature),
    {
        if bytes.len() != 97 {
            return Err(NanoError::InvalidSignature);
        }
        Ok(Ed25519DBSignature(util::slice_to_array::<97>(bytes)))
    }

    /// The full blob bytes.
    pub fn as_ref(&self) -> (r: &[u8])
        ensures
            r@ == self@,
    {
        self.0.as_slice()
    }
}

impl Secp256k1DBSignature {
    /// Signs a message with a Secp256k1 key pair over its SHA-256 digest
    /// and assembles the self-describing blob.
    pub fn new(kp: &KeyPair, message: &[u8]) -> (r: Result<Secp256k1DBSignature, NanoError>)
        requires
            spec_kp_wf(*kp),
            kp matches KeyPair::Secp256k1 { .. },
        ensures
            (r matches Ok(s) ==> s@ == seq![1u8] + backend::secp256k1_sig_of(
                spec_kp_secret(*kp),
                backend::sha256_of(message@),
            ) + spec_kp_public(*kp)),
            r is Ok,
            (r matches Ok(s) ==> s@.len() == 99),
            (r matches Ok(s) ==> backend::secp256k1_recsig_ok(
                backend::secp256k1_sig_of(spec_kp_secret(*kp), backend::sha256_of(message@)),
            )),
            (r matches Ok(s) ==> backend::secp256k1_verifies_hashed(
                spec_kp_public(*kp),
                backend::sha256_of(message@),
                backend::secp256k1_sig_of(spec_kp_secret(*kp), backend::sha256_of(message@)),
            )),
    {
        match kp {
            KeyPair::Secp256k1 { secret, public } => {
                let digest = backend::sha256(message);
                let sig = backend::secp256k1_sign_recoverable(secret.as_slice(), digest.as_slice());
                let mut bytes: Vec<u8> = Vec::new();
                bytes.push(1u8);
                util::push_all(&mut bytes, sig.as_slice());
                util::push_all(&mut bytes, public.as_slice());
                proof {
                    assert(bytes@ =~= seq![1u8] + sig@ + public@);
                }
                Ok(Secp256k1DBSignature(util::slice_to_array::<99>(bytes.as_slice())))
            },
            KeyPair::Ed25519 { .. } => Err(NanoError::SignError),
        }
    }

    /// Signs an already-hashed 32-byte message with a Secp256k1 key pair
    /// and returns the blob bytes; any other digest length fails.
    pub fn new_hashed(kp: &KeyPair, msg: &[u8]) -> (r: Result<Vec<u8>, NanoError>)
        requires
            spec_kp_wf(*kp),
            kp matches KeyPair::Secp256k1 { .. },
        ensures
            r is Ok <==> msg@.len() == 32,
            (r matches Ok(v) ==> v@ == seq![1u8] + backend::secp256k1_sig_of(
                spec_kp_secret(*kp),
                msg@,
            ) + spec_kp_public(*kp)),
            (r matches Ok(v) ==> v@.len() == 99),
            (r matches Ok(v) ==> backend::secp256k1_sig_of(spec_kp_secret(*kp), msg@).len()
                == 65),
            (r matches Ok(v) ==> backend::secp256k1_recsig_ok(
                backend::secp256k1_sig_of(spec_kp_secret(*kp), msg@),
            )),
            (r matches Ok(v) ==> backend::secp256k1_verifies_hashed(
                spec_kp_public(*kp),
                msg@,
                backend::secp256k1_sig_of(spec_kp_secret(*kp), msg@),
            )),
            (r matches Err(e) ==> e == NanoError::InvalidSignature),
    {
        match kp {
            KeyPair::Secp256k1 { secret, public } => {
                if msg.len() != 32 {
                    return Err(NanoError::InvalidSignature);
                }
                let sig = backend::secp256k1_sign_recoverable(secret.as_slice(), msg);
                let mut bytes: Vec<u8> = Vec::new();
                bytes.push(1u8);
                util::push_all(&mut bytes, sig.as_slice());
                util::push_all(&mut bytes, public.as_slice());
                proof {
                    assert(bytes@ =~= seq![1u8] + sig@ + public@);
                }
                Ok(bytes)
            },
            KeyPair::Ed25519 { .. } => Err(NanoError::SignError),
        }
    }

    /// Rebuilds a blob from raw bytes; only the exact total length is
    /// checked here, the enum decoder checks the flag.
    pub fn from_bytes(bytes: &[u8]) -> (r: Result<Secp256k1DBSignature, NanoError>)
        ensures
            r is Ok <==> bytes@.len() == 99,
            (r matches Ok(s) ==> s@ == bytes@),
            (r matches Err(e) ==> e == NanoError::InvalidSignature),
    {
        if bytes.len() != 99 {
            return Err(NanoError::InvalidSignature);
        }
        Ok(Secp256k1DBSignature(util::slice_to_array::<99>(bytes)))
    }

    /// The full blob bytes.
    pub fn as_ref(&self) -> (r: &[u8])
        ensures
            r@ == self@,
    {
        self.0.as_slice()
    }
}

impl Signature {
    /// Decodes a signature blob: the flag byte picks the union case and
    /// the total length must be exactly that scheme's.
    pub fn from_bytes(bytes: &[u8]) -> (r: Result<Signature, NanoError>)
        ensures
            r is Ok <==> spec_sig_bytes_ok(bytes@),
            (r matches Ok(s) ==> s@ == bytes@ && spec_sig_wf(s)),
            (r matches Err(e) ==> e == NanoError::InvalidSignature),
    {
        if bytes.len() == 0 {
            return Err(NanoError::InvalidSignature);
        }
        if bytes[0] == 0u8 {
            let inner = Ed25519DBSignature::from_bytes(bytes)?;
            Ok(Signature::Ed25519DBSignature(inner))
        } else if bytes[0] == 1u8 {
            let inner = Secp256k1DBSignature::from_bytes(bytes)?;
            Ok(Signature::Secp256k1DBSignature(inner))
        } else {
            Err(NanoError::InvalidSignature)
        }
    }

    /// The full blob bytes.
    pub fn as_ref(&self) -> (r: &[u8])
        ensures
            r@ == self@,
    {
        match self {
            Signature::Ed25519DBSignature(s) => s.as_ref(),
            Signature::Secp256k1DBSignature(s) => s.as_ref(),
        }
    }

    /// The raw signature region of the blob.
    pub fn signature_bytes(&self) -> (r: &[u8])
        requires
            spec_sig_wf(*self),
        ensures
            r@ == spec_sig_sig_bytes(*self),
    {
        match self {
            Signature::Ed25519DBSignature(s) => &s.as_ref()[1..65],
            Signature::Secp256k1DBSignature(s) => &s.as_ref()[1..66],
        }
    }

    /// The embedded public key region of the blob.
    pub fn public_key_bytes(&self) -> (r: &[u8])
        requires
            spec_sig_wf(*self),
        ensures
            r@ == spec_sig_pk_bytes(*self),
    {
        match self {
            Signature::Ed25519DBSignature(s) => &s.as_ref()[65..97],
            Signature::Secp256k1DBSignature(s) => &s.as_ref()[66..99],
        }
    }

    /// The scheme of this signature.
    pub fn scheme(&self) -> (r: SignatureScheme)
        ensures
            r == spec_sig_scheme(*self),
    {
        match self {
            Signature::Ed25519DBSignature(_) => SignatureScheme::ED25519,
            Signature::Secp256k1DBSignature(_) => SignatureScheme::Secp256k1,
        }
    }

    /// Verifies the blob against a message: decodes the embedded public
    /// key (key codec error if malformed), parses the embedded signature
    /// (invalid signature if malformed), runs the scheme's native
    /// verification, and on success derives the address of the embedded
    /// key.
    pub fn verify(&self, value: &[u8]) -> (r: Result<NanoAddress, NanoError>)
        requires
            spec_sig_wf(*self),
        ensures
            r is Ok <==> spec_sig_verifies(*self, value@),
            (r matches Ok(a) ==> a@ == spec_sig_address(*self)),
            (r matches Err(e) ==> e == NanoError::KeyCodecError || e
                == NanoError::InvalidSignature),
            (r matches Err(e) ==> (e == NanoError::KeyCodecError <==> !(match *self {
                Signature::Ed25519DBSignature(_) => backend::ed25519_pubkey_ok(
                    spec_sig_pk_bytes(*self),
                ),
                Signature::Secp256k1DBSignature(_) => backend::secp256k1_pubkey_ok(
                    spec_sig_pk_bytes(*self),
                ),
            }))),
    {
        match self {
            Signature::Ed25519DBSignature(_) => {
                let pk_bytes = self.public_key_bytes();
                if !backend::ed25519_check_pubkey(pk_bytes) {
                    return Err(NanoError::KeyCodecError);
                }
                let sig_bytes = self.signature_bytes();
                if !backend::ed25519_verify(pk_bytes, value, sig_bytes) {
                    return Err(NanoError::InvalidSignature);
                }
                Ok(crate::address::address_from_flag_and_key(0u8, pk_bytes))
            },
            Signature::Secp256k1DBSignature(_) => {
                let pk_bytes = self.public_key_bytes();
                if !backend::secp256k1_check_pubkey(pk_bytes) {
                    return Err(NanoError::KeyCodecError);
                }
                let sig_bytes = self.signature_bytes();
                if !backend::secp256k1_check_recoverable_sig(sig_bytes) {
                    return Err(NanoError::InvalidSignature);
                }
                let digest = backend::sha256(value);
                if !backend::secp256k1_verify_hashed_raw(pk_bytes, digest.as_slice(), sig_bytes) {
                    return Err(NanoError::InvalidSignature);
                }
                Ok(crate::address::address_from_flag_and_key(1u8, pk_bytes))
            },
        }
    }
}


impl KeyPair {
    /// Signs a message, producing the self-certifying signature of this
    /// key pair's scheme. The result always verifies against the same
    /// message and certifies this key pair's own address.
    pub fn try_sign(&self, msg: &[u8]) -> (r: Result<Signature, NanoError>)
        requires
            spec_kp_wf(*self),
        ensures
            r is Ok,
            (r matches Ok(s) ==> s@ == spec_signed_blob(*self, msg@) && spec_sig_wf(s)
                && spec_sig_scheme(s) == crate::keypair::spec_kp_scheme(*self)
                && spec_sig_pk_bytes(s) == spec_kp_public(*self) && spec_sig_verifies(s, msg@)),
    {
        match self {
            KeyPair::Ed25519 { .. } => {
                let inner = Ed25519DBSignature::new(self, msg)?;
                let s = Signature::Ed25519DBSignature(inner);
                proof {
                    assert(spec_sig_sig_bytes(s) =~= backend::ed25519_sig_of(
                        spec_kp_secret(*self),
                        msg@,
                    ));
                    assert(spec_sig_pk_bytes(s) =~= spec_kp_public(*self));
                }
                Ok(s)
            },
            KeyPair::Secp256k1 { .. } => {
                let inner = Secp256k1DBSignature::new(self, msg)?;
                let s = Signature::Secp256k1DBSignature(inner);
                proof {
                    assert(spec_sig_sig_bytes(s) =~= backend::secp256k1_sig_of(
                        spec_kp_secret(*self),
                        backend::sha256_of(msg@),
                    ));
                    assert(spec_sig_pk_bytes(s) =~= spec_kp_public(*self));
                }
                Ok(s)
            },
        }
    }

    /// Signs an already-hashed 32-byte message. Only the Secp256k1
    /// scheme supports this: Ed25519 must sign the unhashed message
    /// internally, so requesting it is a deliberate error.
    pub fn try_sign_hashed_message(&self, msg: &[u8]) -> (r: Result<Vec<u8>, NanoError>)
        requires
            spec_kp_wf(*self),
        ensures
            r is Ok <==> (self matches KeyPair::Secp256k1 { .. } && msg@.len() == 32),
            (r matches Ok(v) ==> v@ == seq![1u8] + backend::secp256k1_sig_of(
                spec_kp_secret(*self),
                msg@,
            ) + spec_kp_public(*self)),
            (r matches Ok(v) ==> v@.len() == 99),
            (r matches Ok(v) ==> backend::secp256k1_sig_of(spec_kp_secret(*self), msg@).len()
                == 65),
            (r matches Ok(v) ==> backend::secp256k1_recsig_ok(
                backend::secp256k1_sig_of(spec_kp_secret(*self), msg@),
            )),
            (r matches Ok(v) ==> backend::secp256k1_verifies_hashed(
                spec_kp_public(*self),
                msg@,
                backend::secp256k1_sig_of(spec_kp_secret(*self), msg@),
            )),
            (r matches Err(e) ==> (self matches KeyPair::Ed25519 { .. } ==> e
                == NanoError::SignError) && (self matches KeyPair::Secp256k1 { .. } ==> e
                == NanoError::InvalidSignature)),
    {
        match self {
            KeyPair::Ed25519 { .. } => Err(NanoError::SignError),
            KeyPair::Secp256k1 { .. } => Secp256k1DBSignature::new_hashed(self, msg),
        }
    }
}


/// The capability set of a self-describing signature blob: byte access
/// to its regions, scheme introspection, and self-certifying
/// verification.
pub trait DBSignature: Sized {
    fn signature_bytes(&self) -> &[u8];

    fn public_key_bytes(&self) -> &[u8];

    fn scheme(&self) -> SignatureScheme;

    fn verify(&self, value: &[u8]) -> Result<NanoAddress, NanoError>;
}

/// Values that know how to write their signing payload.
pub trait Signable<W> {
    fn write(&self, writer: &mut W);
}

impl DBSignature for Ed25519DBSignature {
    /// The raw signature region, at its fixed offset.
    fn signature_bytes(&self) -> (r: &[u8])
        ensures
            r@ == self@.subrange(1, 65),
    {
        &self.0.as_slice()[1..65]
    }

    /// The embedded public key region, at its fixed offset.
    fn public_key_bytes(&self) -> (r: &[u8])
        ensures
            r@ == self@.subrange(65, 97),
    {
        &self.0.as_slice()[65..97]
    }

    /// The scheme of this blob type.
    fn scheme(&self) -> (r: SignatureScheme)
        ensures
            r == SignatureScheme::ED25519,
    {
        SignatureScheme::ED25519
    }

    /// Verifies the blob against a message and derives the embedded
    /// key's address on success; a malformed embedded key is a key codec
    /// error, everything else that fails is an invalid signature.
    fn verify(&self, value: &[u8]) -> (r: Result<NanoAddress, NanoError>)
        ensures
            r is Ok <==> (backend::ed25519_pubkey_ok(self@.subrange(65, 97))
                && backend::ed25519_verifies(
                self@.subrange(65, 97),
                value@,
                self@.subrange(1, 65),
            )),
            (r matches Ok(a) ==> a@ == spec_address_of(0u8, self@.subrange(65, 97))),
            (r matches Err(e) ==> e == NanoError::KeyCodecError || e
                == NanoError::InvalidSignature),
            (r matches Err(e) ==> (e == NanoError::KeyCodecError <==> !backend::ed25519_pubkey_ok(
                self@.subrange(65, 97),
            ))),
    {
        let pk_bytes = &self.0.as_slice()[65..97];
        if !backend::ed25519_check_pubkey(pk_bytes) {
            return Err(NanoError::KeyCodecError);
        }
        let sig_bytes = &self.0.as_slice()[1..65];
        if !backend::ed25519_verify(pk_bytes, value, sig_bytes) {
            return Err(NanoError::InvalidSignature);
        }
        Ok(crate::address::address_from_flag_and_key(0u8, pk_bytes))
    }
}

impl DBSignature for Secp256k1DBSignature {
    /// The raw signature region, at its fixed offset.
    fn signature_bytes(&self) -> (r: &[u8])
        ensures
            r@ == self@.subrange(1, 66),
    {
        &self.0.as_slice()[1..66]
    }

    /// The embedded public key region, at its fixed offset.
    fn public_key_bytes(&self) -> (r: &[u8])
        ensures
            r@ == self@.subrange(66, 99),
    {
        &self.0.as_slice()[66..99]
    }

    /// The scheme of this blob type.
    fn scheme(&self) -> (r: SignatureScheme)
        ensures
            r == SignatureScheme::Secp256k1,
    {
        SignatureScheme::Secp256k1
    }

    /// Verifies the blob against a message over its SHA-256 digest and
    /// derives the embedded key's address on success; a malformed
    /// embedded key is a key codec error, everything else that fails is
    /// an invalid signature.
    fn verify(&self, value: &[u8]) -> (r: Result<NanoAddress, NanoError>)
        ensures
            r is Ok <==> (backend::secp256k1_pubkey_ok(self@.subrange(66, 99))
                && backend::secp256k1_recsig_ok(self@.subrange(1, 66))
                && backend::secp256k1_verifies_hashed(
                self@.subrange(66, 99),
                backend::sha256_of(value@),
                self@.subrange(1, 66),
            )),
            (r matches Ok(a) ==> a@ == spec_address_of(1u8, self@.subrange(66, 99))),
            (r matches Err(e) ==> e == NanoError::KeyCodecError || e
                == NanoError::InvalidSignature),
            (r matches Err(e) ==> (e == NanoError::KeyCodecError
                <==> !backend::secp256k1_pubkey_ok(self@.subrange(66, 99)))),
    {
        let pk_bytes = &self.0.as_slice()[66..99];
        if !backend::secp256k1_check_pubkey(pk_bytes) {
            return Err(NanoError::KeyCodecError);
        }
        let sig_bytes = &self.0.as_slice()[1..66];
        if !backend::secp256k1_check_recoverable_sig(sig_bytes) {
            return Err(NanoError::InvalidSignature);
        }
        let digest = backend::sha256(value);
        if !backend::secp256k1_verify_hashed_raw(pk_bytes, digest.as_slice(), sig_bytes) {
            return Err(NanoError::InvalidSignature);
        }
        Ok(crate::address::address_from_flag_and_key(1u8, pk_bytes))
    }
}


/// Codec round trip for signatures: the encoded bytes of a well-formed
/// signature decode again (`spec_sig_bytes_ok`), and any well-formed
/// signature with the same bytes is the same value; together with the
/// contracts of `as_ref` and `from_bytes` this says that decoding an
/// encoded signature reconstructs it.
pub proof fn lemma_signature_codec_round_trip(s1: Signature, s2: Signature)
    requires
        spec_sig_wf(s1),
        spec_sig_wf(s2),
        s2@ == s1@,
    ensures
        spec_sig_bytes_ok(s1@),
        s2 == s1,
{
    match (s1, s2) {
        (Signature::Ed25519DBSignature(a), Signature::Ed25519DBSignature(b)) => {
            assert(a.0 =~= b.0);
        },
        (Signature::Secp256k1DBSignature(a), Signature::Secp256k1DBSignature(b)) => {
            assert(a.0 =~= b.0);
        },
        _ => {
            assert(s1@[0] == s2@[0]);
        },
    }
}

} // verus!

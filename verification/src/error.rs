//! The error taxonomy of the library.
//!
//! Every fallible operation returns one of these kinds; none is used for
//! control flow. The kinds carry no payload: callers dispatch on the kind
//! alone.

use vstd::prelude::*;

verus! {

/// Failure kinds surfaced by the library.
#[derive(Clone, Copy, Debug, PartialEq, Eq, Structural)]
pub enum NanoError {
    /// An address had the wrong byte length or an unparseable hex form.
    InvalidAddress,
    /// A key pair could not be loaded from its encoded form.
    LoadKeyPairError,
    /// A signing operation failed or is not supported for the scheme.
    SignError,
    /// A request could not be verified.
    VerifyFailed,
    /// A signature blob was malformed or cryptographic verification failed.
    InvalidSignature,
    /// A key could not be encoded or decoded (unknown flag byte, wrong
    /// length, malformed base64).
    KeyCodecError,
    /// Gas consumption would exceed the configured limit.
    OutOfGasError,
    /// The address does not match the public key.
    InvalidSigner,
    /// Key derivation failed: bad path shape or underlying derivation error.
    SignatureKeyGenError,
    /// A message could not be signed.
    SignMessageError,
}

} // verus!

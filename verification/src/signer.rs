//! A signer bound to one key pair of either scheme.

use vstd::prelude::*;

use crate::address::spec_address_of;
use crate::address::NanoAddress;
use crate::error::NanoError;
use crate::keypair::spec_kp_public;
use crate::keypair::spec_kp_scheme;
use crate::keypair::spec_kp_wf;
use crate::keypair::KeyPair;
use crate::signature::spec_sig_verifies;
use crate::signature::spec_sig_wf;
use crate::signature::spec_signed_blob;
use crate::signature::Signature;
use crate::signature_scheme::spec_flag;

verus! {

/// A signer that owns one key pair and signs with whichever scheme it
/// belongs to.
pub struct NanoMultiSchemeSigner {
    kp: KeyPair,
}

impl NanoMultiSchemeSigner {
    /// The key pair this signer holds.
    pub closed spec fn spec_kp(&self) -> KeyPair {
        self.kp
    }

    /// Wraps a key pair as a signer.
    pub fn new(kp: KeyPair) -> (r: Self)
        requires
            spec_kp_wf(kp),
        ensures
            r.spec_kp() == kp,
            spec_kp_wf(r.spec_kp()),
    {
        NanoMultiSchemeSigner { kp }
    }

    /// Signs a message with the held key pair.
    pub fn sign(&self, msg: &[u8]) -> (r: Result<Signature, NanoError>)
        requires
            spec_kp_wf(self.spec_kp()),
        ensures
            r is Ok,
            (r matches Ok(s) ==> s@ == spec_signed_blob(self.spec_kp(), msg@) && spec_sig_wf(s)
                && spec_sig_verifies(s, msg@)),
    {
        match self.kp.try_sign(msg) {
            Ok(s) => Ok(s),
            Err(_) => Err(NanoError::SignMessageError),
        }
    }

    /// The address of the held key pair's public key.
    pub fn get_address(&self) -> (r: Result<NanoAddress, NanoError>)
        requires
            spec_kp_wf(self.spec_kp()),
        ensures
            r is Ok,
            (r matches Ok(a) ==> a@ == spec_address_of(
                spec_flag(spec_kp_scheme(self.spec_kp())),
                spec_kp_public(self.spec_kp()),
            )),
    {
        let pk = self.kp.public();
        Ok(NanoAddress::from_public_key(&pk))
    }
}

} // verus!

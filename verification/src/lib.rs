//! Cryptographic identity layer of an account-based ledger: multi-scheme
//! key pairs, self-certifying signatures, deterministic key derivation and
//! short account addresses, together with the storage-key encodings and gas
//! bookkeeping built on top of them.

use vstd::prelude::*;

pub mod account_keys;
pub mod account_store;
pub mod address;
pub mod backend;
pub mod bill_key;
pub mod cost;
pub mod error;
pub mod faucet_key;
pub mod gas_meter;
pub mod id;
pub mod key_derive;
pub mod keypair;
pub mod nano_verifier;
pub mod public_key;
pub mod signature;
pub mod signature_scheme;
pub mod signer;
pub mod storage_key;
pub mod util;

verus! {

/// Checks that a byte slice has exactly the expected length.
pub fn ensure_len_eq(data: &[u8], len: usize) -> (r: Result<(), error::NanoError>)
    ensures
        r is Ok <==> data@.len() == len,
{
    if data.len() == len {
        Ok(())
    } else {
        Err(error::NanoError::KeyCodecError)
    }
}

} // verus!

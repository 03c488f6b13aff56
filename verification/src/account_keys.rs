//! The storage key encoding for accounts: a fixed namespace prefix
//! followed by the 20 address bytes.

use vstd::prelude::*;

use crate::address::NanoAddress;
use crate::error::NanoError;
use crate::util;

verus! {

/// Total length of an encoded account key: the 4-byte `/ac/` prefix
/// plus the 20 address bytes.
pub const ACCOUNT_KEY_SIZE: usize = 24;

/// The namespace prefix of account keys: the bytes of `/ac/`.
pub open spec fn spec_account_key_prefix() -> Seq<u8> {
    seq![47u8, 97u8, 99u8, 47u8]
}

/// A storage key naming one account by its address.
pub struct AccountKey<'a>(pub &'a NanoAddress);

impl<'a> AccountKey<'a> {
    /// Encodes the key as `/ac/` followed by the address bytes.
    pub fn encode(&self) -> (r: Result<Vec<u8>, NanoError>)
        ensures
            r is Ok,
            (r matches Ok(v) ==> v@ == spec_account_key_prefix() + self.0@),
    {
        let mut encoded_key: Vec<u8> = Vec::new();
        encoded_key.push(47u8);
        encoded_key.push(97u8);
        encoded_key.push(99u8);
        encoded_key.push(47u8);
        util::push_all(&mut encoded_key, self.0.as_bytes());
        proof {
            assert(encoded_key@ =~= spec_account_key_prefix() + self.0@);
        }
        Ok(encoded_key)
    }

    /// Decodes an account key back to its address; only the total
    /// length is checked, the address is read at a fixed offset.
    pub fn decode(data: &[u8]) -> (r: Result<NanoAddress, NanoError>)
        ensures
            r is Ok <==> data@.len() == 24,
            (r matches Ok(a) ==> a@ == data@.subrange(4, 24)),
            (r matches Err(e) ==> e == NanoError::KeyCodecError),
    {
        if let Err(_) = crate::ensure_len_eq(data, ACCOUNT_KEY_SIZE) {
            return Err(NanoError::KeyCodecError);
        }
        let addr_bytes = util::copy_range(data, 4, 24);
        match NanoAddress::try_from_bytes(addr_bytes.as_slice()) {
            Ok(addr) => Ok(addr),
            Err(_) => Err(NanoError::KeyCodecError),
        }
    }
}

} // verus!

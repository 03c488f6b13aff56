//! The storage key encoding for bills: a fixed namespace prefix
//! followed by the 32 bill id bytes.

use vstd::prelude::*;

use crate::error::NanoError;
use crate::id::BillId;
use crate::util;

verus! {

/// The namespace prefix of bill keys: the bytes of `/bl/`.
pub open spec fn spec_bill_key_prefix() -> Seq<u8> {
    seq![47u8, 98u8, 108u8, 47u8]
}

/// A storage key naming one bill by its id.
pub struct BillKey<'a>(pub &'a BillId);

impl<'a> BillKey<'a> {
    /// Encodes the key as `/bl/` followed by the bill id bytes.
    pub fn encode(&self) -> (r: Result<Vec<u8>, NanoError>)
        ensures
            r is Ok,
            (r matches Ok(v) ==> v@ == spec_bill_key_prefix() + self.0@),
    {
        let mut encoded_key: Vec<u8> = Vec::new();
        encoded_key.push(47u8);
        encoded_key.push(98u8);
        encoded_key.push(108u8);
        encoded_key.push(47u8);
        util::push_all(&mut encoded_key, self.0.as_bytes());
        proof {
            assert(encoded_key@ =~= spec_bill_key_prefix() + self.0@);
        }
        Ok(encoded_key)
    }
}

} // verus!

//! The storage key encoding for databases: a fixed namespace prefix
//! followed by the 20 database id bytes.

use vstd::prelude::*;

use crate::error::NanoError;
use crate::id::DbId;
use crate::util;

verus! {

/// The namespace prefix of database keys: the bytes of `/db/`.
pub open spec fn spec_db_key_prefix() -> Seq<u8> {
    seq![47u8, 100u8, 98u8, 47u8]
}

/// A storage key naming one database by its id.
pub struct DbKey(pub DbId);

impl DbKey {
    /// Encodes the key as `/db/` followed by the database id bytes.
    pub fn encode(&self) -> (r: Result<Vec<u8>, NanoError>)
        ensures
            r is Ok,
            (r matches Ok(v) ==> v@ == spec_db_key_prefix() + self.0@),
    {
        let mut encoded_key: Vec<u8> = Vec::new();
        encoded_key.push(47u8);
        encoded_key.push(100u8);
        encoded_key.push(98u8);
        encoded_key.push(47u8);
        util::push_all(&mut encoded_key, self.0.as_bytes());
        proof {
            assert(encoded_key@ =~= spec_db_key_prefix() + self.0@);
        }
        Ok(encoded_key)
    }

    /// Decodes a database key: the data must hold at least the prefix
    /// and a full id; the id is read at a fixed offset and any trailing
    /// bytes are ignored.
    pub fn decode(data: &[u8]) -> (r: Result<DbKey, NanoError>)
        ensures
            r is Ok <==> data@.len() >= 24,
            (r matches Ok(k) ==> k.0@ == data@.subrange(4, 24)),
            (r matches Err(e) ==> e == NanoError::KeyCodecError),
    {
        if data.len() < 24 {
            return Err(NanoError::KeyCodecError);
        }
        let id_bytes = util::copy_range(data, 4, 24);
        let arr = util::slice_to_array::<20>(id_bytes.as_slice());
        Ok(DbKey(DbId::from_array(&arr)))
    }

    /// The greatest database key.
    pub fn max() -> (r: DbKey)
        ensures
            r.0@ == Seq::<u8>::new(20, |i: int| 0xffu8),
    {
        DbKey(DbId::max_id())
    }

    /// The least database key.
    pub fn min() -> (r: DbKey)
        ensures
            r.0@ == Seq::<u8>::new(20, |i: int| 0u8),
    {
        DbKey(DbId::min_id())
    }
}

} // verus!

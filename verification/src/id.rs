//! Identifiers built on addresses: verified account ids, transaction
//! ids, and the fixed-width ids used by the storage key encodings.

use vstd::prelude::*;

use crate::address::NanoAddress;
use crate::backend;
use crate::error::NanoError;

verus! {

/// The byte length of a transaction id.
pub const TX_ID_LENGTH: usize = 32;

/// The byte length of a database id.
pub const DBID_LENGTH: usize = 20;

/// A verified identity: the address recovered from a successful
/// signature verification, or derived directly from a key.
#[derive(Eq, Default, PartialEq, Ord, PartialOrd, Copy, Clone, Debug)]
pub struct AccountId {
    pub addr: NanoAddress,
}

impl AccountId {
    /// Wraps an address as an account id.
    pub fn new(addr: NanoAddress) -> (r: Self)
        ensures
            r.addr == addr,
    {
        AccountId { addr }
    }

    /// The textual form of the account's address.
    pub fn to_hex(&self) -> (r: String)
        ensures
            r@ == seq!['0', 'x'] + crate::address::spec_hex_lower(self.addr@),
    {
        self.addr.to_hex()
    }

    /// Parses an account id from raw address bytes.
    pub fn try_from_bytes(data: &[u8]) -> (r: Result<Self, NanoError>)
        ensures
            r is Ok <==> data@.len() == 20,
            (r matches Ok(a) ==> a.addr@ == data@),
            (r matches Err(e) ==> e == NanoError::InvalidAddress),
    {
        let addr = NanoAddress::try_from_bytes(data)?;
        Ok(AccountId { addr })
    }
}

/// A 32-byte transaction id.
#[derive(Eq, Default, PartialEq, Ord, PartialOrd, Copy, Clone, Debug)]
pub struct TxId {
    data: [u8; 32],
}

impl View for TxId {
    type V = Seq<u8>;

    closed spec fn view(&self) -> Seq<u8> {
        self.data@
    }
}

impl TxId {
    /// The all-zero transaction id.
    pub fn zero() -> (r: Self)
        ensures
            r@ == Seq::<u8>::new(32, |i: int| 0u8),
    {
        let t = TxId { data: [0u8; 32] };
        proof {
            assert(t@ =~= Seq::<u8>::new(32, |i: int| 0u8));
        }
        t
    }

    /// Wraps fixed-length bytes as a transaction id.
    pub fn from_array(data: &[u8; 32]) -> (r: Self)
        ensures
            r@ == data@,
    {
        TxId { data: *data }
    }

    /// The id bytes as a slice.
    pub fn as_bytes(&self) -> (r: &[u8])
        ensures
            r@ == self@,
    {
        self.data.as_slice()
    }

    /// The base64 form of the id.
    pub fn to_base64(&self) -> (r: String)
        ensures
            r@ == backend::base64_of(self@),
    {
        backend::base64_encode(self.data.as_slice())
    }
}

/// A 20-byte database id, ordered byte-wise.
#[derive(Eq, Default, PartialEq, Ord, PartialOrd, Copy, Clone, Debug)]
pub struct DbId {
    data: [u8; 20],
}

impl View for DbId {
    type V = Seq<u8>;

    closed spec fn view(&self) -> Seq<u8> {
        self.data@
    }
}

impl DbId {
    /// Wraps fixed-length bytes as a database id.
    pub fn from_array(data: &[u8; 20]) -> (r: Self)
        ensures
            r@ == data@,
    {
        DbId { data: *data }
    }

    /// The greatest id: all bytes 0xff.
    pub fn max_id() -> (r: Self)
        ensures
            r@ == Seq::<u8>::new(20, |i: int| 0xffu8),
    {
        let d = DbId { data: [0xffu8; 20] };
        proof {
            assert(d@ =~= Seq::<u8>::new(20, |i: int| 0xffu8));
        }
        d
    }

    /// The least id: all bytes 0x00.
    pub fn min_id() -> (r: Self)
        ensures
            r@ == Seq::<u8>::new(20, |i: int| 0u8),
    {
        let d = DbId { data: [0u8; 20] };
        proof {
            assert(d@ =~= Seq::<u8>::new(20, |i: int| 0u8));
        }
        d
    }

    /// The number of bytes in a database id.
    pub fn length() -> (r: usize)
        ensures
            r == 20,
    {
        20
    }

    /// The id bytes as a slice.
    pub fn as_bytes(&self) -> (r: &[u8])
        ensures
            r@ == self@,
    {
        self.data.as_slice()
    }
}

/// A 32-byte bill id.
#[derive(Eq, Default, PartialEq, Ord, PartialOrd, Copy, Clone, Debug)]
pub struct BillId {
    data: [u8; 32],
}

impl View for BillId {
    type V = Seq<u8>;

    closed spec fn view(&self) -> Seq<u8> {
        self.data@
    }
}

impl BillId {
    /// Wraps fixed-length bytes as a bill id.
    pub fn from_array(data: &[u8; 32]) -> (r: Self)
        ensures
            r@ == data@,
    {
        BillId { data: *data }
    }

    /// The id bytes as a slice.
    pub fn as_bytes(&self) -> (r: &[u8])
        ensures
            r@ == self@,
    {
        self.data.as_slice()
    }
}


/// A transaction id's view always holds exactly 32 bytes.
pub proof fn lemma_tx_id_len(t: TxId)
    ensures
        t@.len() == 32,
{
}

/// A database id's view always holds exactly 20 bytes.
pub proof fn lemma_db_id_len(d: DbId)
    ensures
        d@.len() == 20,
{
}

/// A bill id's view always holds exactly 32 bytes.
pub proof fn lemma_bill_id_len(b: BillId)
    ensures
        b@.len() == 32,
{
}

} // verus!

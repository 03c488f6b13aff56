//! The account store façade.
//!
//! The store itself persists accounts in the merkle-backed key-value
//! engine, which lives outside this library; here only the store handle
//! and the account-key encoding it relies on (see `account_keys`) are
//! defined.

use vstd::prelude::*;

verus! {

/// A handle on the account column of the storage engine.
pub struct AccountStore {}

impl AccountStore {
    /// Builds the store handle.
    pub fn new() -> AccountStore {
        AccountStore {  }
    }
}

} // verus!

//! Gas cost estimation for store operations and query sessions.

use vstd::prelude::*;

verus! {

/// Gas price of creating a database.
pub const C_CREATEDB_GAS_PRICE: u64 = 100;

/// Gas price of creating a collection.
pub const C_CREATECOLLECTION_GAS_PRICE: u64 = 100;

/// Gas price of creating an index.
pub const C_CREATEINDEX_GAS_PRICE: u64 = 100;

/// Gas price of adding a document.
pub const C_ADD_DOC_GAS_PRICE: u64 = 200;

/// Gas price of deleting a document.
pub const C_DEL_DOC_GAS_PRICE: u64 = 200;

/// Gas price of updating a document.
pub const C_UPDATE_DOC_GAS_PRICE: u64 = 200;

/// Gas price per stored byte.
pub const STORAGE_GAS_PRICE: u64 = 1;

/// Gas price per query operation.
pub const C_QUERY_OP_GAS_PRICE: u64 = 100;

/// A batch of store operations, either schema-level or document-level,
/// with the byte volume they carry.
#[derive(PartialEq, Eq, Debug, Structural)]
pub enum DbStoreOp {
    DbOp { create_db_ops: u64, create_collection_ops: u64, create_index_ops: u64, data_in_bytes: u64 },
    DocOp { add_doc_ops: u64, del_doc_ops: u64, update_doc_ops: u64, data_in_bytes: u64 },
}

/// The byte volume recorded in a batch.
pub open spec fn spec_data_size(ops: DbStoreOp) -> u64 {
    match ops {
        DbStoreOp::DbOp { data_in_bytes, .. } => data_in_bytes,
        DbStoreOp::DocOp { data_in_bytes, .. } => data_in_bytes,
    }
}

/// The gas a batch costs: each operation at its price plus the storage
/// price of every byte.
pub open spec fn spec_estimate_gas(ops: DbStoreOp) -> int {
    match ops {
        DbStoreOp::DbOp { create_db_ops, create_collection_ops, create_index_ops, data_in_bytes } => 100
            * create_db_ops + 100 * create_collection_ops + 100 * create_index_ops
            + data_in_bytes,
        DbStoreOp::DocOp { add_doc_ops, del_doc_ops, update_doc_ops, data_in_bytes } => 200
            * add_doc_ops + 200 * del_doc_ops + 200 * update_doc_ops + data_in_bytes,
    }
}

impl DbStoreOp {
    /// Replaces the recorded byte volume, leaving the operation counts
    /// unchanged.
    pub fn update_data_size(&mut self, data_size: u64)
        ensures
            spec_data_size(*final (self)) == data_size,
            match *old(self) {
                DbStoreOp::DbOp { create_db_ops, create_collection_ops, create_index_ops, .. } => *
                final (self) == (DbStoreOp::DbOp {
                    create_db_ops,
                    create_collection_ops,
                    create_index_ops,
                    data_in_bytes: data_size,
                }),
                DbStoreOp::DocOp { add_doc_ops, del_doc_ops, update_doc_ops, .. } => *final (self)
                    == (DbStoreOp::DocOp {
                    add_doc_ops,
                    del_doc_ops,
                    update_doc_ops,
                    data_in_bytes: data_size,
                }),
            },
    {
        match self {
            DbStoreOp::DbOp { ref mut data_in_bytes, .. } => {
                *data_in_bytes = data_size;
            },
            DbStoreOp::DocOp { ref mut data_in_bytes, .. } => {
                *data_in_bytes = data_size;
            },
        }
    }

    /// The recorded byte volume.
    pub fn get_data_size(&self) -> (r: u64)
        ensures
            r == spec_data_size(*self),
    {
        match self {
            DbStoreOp::DbOp { data_in_bytes, .. } => *data_in_bytes,
            DbStoreOp::DocOp { data_in_bytes, .. } => *data_in_bytes,
        }
    }
}

/// Estimates the gas of a batch of store operations; the caller keeps
/// the counts small enough that the weighted sum fits in 64 bits.
pub fn estimate_gas(ops: &DbStoreOp) -> (r: u64)
    requires
        spec_estimate_gas(*ops) <= u64::MAX,
    ensures
        r == spec_estimate_gas(*ops),
{
    match ops {
        DbStoreOp::DbOp { create_db_ops, create_collection_ops, create_index_ops, data_in_bytes } => {
            C_CREATEDB_GAS_PRICE * create_db_ops + C_CREATECOLLECTION_GAS_PRICE
                * create_collection_ops + C_CREATEINDEX_GAS_PRICE * create_index_ops
                + STORAGE_GAS_PRICE * data_in_bytes
        },
        DbStoreOp::DocOp { add_doc_ops, del_doc_ops, update_doc_ops, data_in_bytes } => {
            C_DEL_DOC_GAS_PRICE * add_doc_ops + C_ADD_DOC_GAS_PRICE * del_doc_ops
                + C_UPDATE_DOC_GAS_PRICE * update_doc_ops + STORAGE_GAS_PRICE * data_in_bytes
        },
    }
}

/// What a query session reports for gas accounting: how many query
/// operations it ran.
#[derive(PartialEq, Eq, Debug, Clone, Copy, Structural)]
pub struct QuerySessionInfo {
    pub query_count: i32,
}

/// Estimates the gas of a query session: each query at its price.
pub fn estimate_query_session_gas(query_session_info: &QuerySessionInfo) -> (r: u64)
    requires
        query_session_info.query_count >= 0,
    ensures
        r == 100 * query_session_info.query_count,
{
    C_QUERY_OP_GAS_PRICE * (query_session_info.query_count as u64)
}

} // verus!

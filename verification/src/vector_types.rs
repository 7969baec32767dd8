//! Wire types of the vector store consulted by the backend.
//!
//! The engine never queries the store itself; these are the payload shapes
//! the surrounding application posts when it maintains collections.

use vstd::prelude::*;

verus! {

/// The database/collection pair every request addresses.
#[derive(Clone, Debug)]
pub struct VectorBase {
    pub database: String,
    pub collection: String,
}

/// Request that a collection exists.
#[derive(Clone, Debug)]
pub struct EnsureCollectionPayload {
    pub base: VectorBase,
}

/// Request that a collection be emptied.
#[derive(Clone, Debug)]
pub struct ClearCollectionPayload {
    pub base: VectorBase,
}

/// Request the number of entries of a collection.
#[derive(Clone, Debug)]
pub struct CountPayload {
    pub base: VectorBase,
}

/// The store's answer to a count request.
#[derive(Clone, Debug)]
pub struct CountResponse {
    pub count: i64,
}

} // verus!

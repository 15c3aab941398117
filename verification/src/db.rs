//! The key-value store interface of the storage engine.
//!
//! The validator itself never touches storage; these traits are what the
//! surrounding node implements and what the chain store is built on. They
//! are interfaces only: what a store returns for a key is the store's own
//! business, so the methods carry no contracts.

use vstd::prelude::*;

verus! {

/// A storage-level failure, carrying the engine's message.
#[derive(Clone, Debug, PartialEq, Eq)]
pub enum Error {
    DBError(String),
}

/// A column-family key-value store with batched writes and optional
/// partial-value reads.
pub trait KeyValueDB: Sync + Send {
    type Batch: DbBatch;

    fn read(&self, col: u32, key: &[u8]) -> Result<Option<Vec<u8>>, Error>;

    fn partial_read(&self, col: u32, key: &[u8], range: &core::ops::Range<usize>) -> Result<
        Option<Vec<u8>>,
        Error,
    >;

    fn batch(&self) -> Result<Self::Batch, Error>;
}

/// A store that can also iterate a column from a start key; the pairs come
/// back materialized, in the store's iteration order.
pub trait IterableKeyValueDB: KeyValueDB {
    fn iter(&self, col: u32, from_key: &[u8]) -> Result<Vec<(Vec<u8>, Vec<u8>)>, Error>;
}

/// A batch of writes, committed atomically.
pub trait DbBatch {
    fn insert(&mut self, col: u32, key: &[u8], value: &[u8]) -> Result<(), Error>;

    fn delete(&mut self, col: u32, key: &[u8]) -> Result<(), Error>;

    fn commit(self) -> Result<(), Error>;
}

} // verus!

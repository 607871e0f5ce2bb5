pub mod block_store;
pub mod mempool;
pub mod rocksdb_store;

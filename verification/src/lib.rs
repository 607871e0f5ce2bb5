pub mod crypto;
pub mod error;
pub mod message;
pub mod protocol;
pub mod storage;
pub mod testing;
pub mod timer;
pub mod types;

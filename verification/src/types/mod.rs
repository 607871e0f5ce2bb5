pub mod block;
pub mod bytes;
pub mod hash;
pub mod proposal;
pub mod quorum_cert;
pub mod signature;
pub mod timestamp;
pub mod transaction;

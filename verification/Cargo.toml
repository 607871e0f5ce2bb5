[package]
name = "hotstuff2"
version = "0.1.0"
edition = "2021"
publish = false

[dependencies]
sha2 = "0.10"
bls12_381 = "0.8"
group = "0.13"
ff = "0.13"
serde = { version = "1", features = ["derive"] }
bincode = "1"
tokio = { version = "1", features = ["rt-multi-thread", "macros", "sync", "time"] }
log = "0.4"
rand = "0.9"
dashmap = "6"
parking_lot = "0.12"
async-trait = "0.1"
rocksdb = { version = "*", default-features = false }

pub mod bls_threshold;
pub mod threshold;

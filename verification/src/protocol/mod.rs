pub mod advanced_bft_tests;
pub mod benchmarks;
pub mod comprehensive_tests;
pub mod hotstuff2;
pub mod hotstuff2_complete;
pub mod laws;
pub mod maps;
pub mod recovery;

pub mod consensus;

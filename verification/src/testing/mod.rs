pub mod stress_test;

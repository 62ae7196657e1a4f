//! A MiMC-family hash with the power-17 round map, over a fixed prime field.
//!
//! Field elements are `num_bigint::BigUint` values. Every contract is stated
//! over the natural number that such a value stands for.

pub mod big;
pub mod constants;
pub mod field;
pub mod mimc;

pub use mimc::{zkmain, Mimc17};

//! Settlement ledger for listed assets and a randomized allocation engine
//! for issuing assets from a fixed supply pool.

pub mod coin;
pub mod entropy;
pub mod error;
pub mod factory;
pub mod fee;
pub mod instruction;
pub mod market;
pub mod mint;

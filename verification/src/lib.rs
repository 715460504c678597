//! Compute unit estimation and optimization for Solana transactions.
//!
//! `estimate` says how many compute units a message or a transaction needs, `optimize` puts an
//! instruction in front of it that requests that many, and `rollup`, `budget` and `loader` say
//! what a transaction is run with to find out.
pub mod budget;
pub mod error;
pub mod estimate;
pub mod loader;
pub mod message;
pub mod optimize;
pub mod pubkey;
pub mod rollup;

pub use error::SolanaClientExtError;
pub use loader::RollUpAccountLoader;
pub use rollup::RollUpChannel;

//! Device-specific parts of KeyMint.

pub mod chain;
pub mod dice;
pub mod laws;
pub mod rpc;

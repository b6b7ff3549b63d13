//! Verified logic of a software KeyMint: the caller filter, the attestation identifiers, and the
//! DICE chain that backs remote key provisioning.

pub mod att_mgr;
pub mod cbor;
pub mod config;
pub mod cose;
pub mod digest;
pub mod error;
pub mod filter;
pub mod keymint;

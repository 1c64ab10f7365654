//! Deterministic per-identity Bitcoin address derivation and balance
//! aggregation.
//!
//! The library turns an opaque caller identity into a reproducible
//! derivation path, validates the public key returned by a remote signer,
//! encodes it as a segwit v0 (P2WPKH) address for the configured network,
//! and sums the value fields of a UTXO set into a balance. The remote
//! signer and chain-data provider are consumed at their interface
//! boundary: every remote outcome enters the library as a plain value.

pub mod balance;
pub mod codec;
pub mod errors;
pub mod facade;
pub mod keys;
pub mod network;

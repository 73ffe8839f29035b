//! A verified core for a blockchain lookup gateway.
//!
//! The library holds the logic of a small HTTP gateway that proxies
//! transaction lookups to block-explorer APIs (Ethereum, Polygon, BSC) and a
//! Solana RPC node: building the explorer request URLs, validating Solana
//! signatures and public keys, formatting lamport balances, and wrapping
//! every outcome in the uniform `{status_code, message, data}` envelope.
//! The network itself is left to the surrounding binary.

pub mod balances;
pub mod envelope;
pub mod errors;
pub mod explorer;
pub mod payload;
pub mod solana;

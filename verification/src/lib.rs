//! Boundary-safe mirror types for a shielded-wallet library, together with the
//! pure conversion and validation logic that sits between those mirrors and the
//! wallet engine itself.
//!
//! Every type here models its wallet-engine counterpart with plain values (byte
//! vectors, integers, enums) so that each constructor and accessor carries a
//! precise contract. The few operations that only the wallet engine can
//! compute (Sapling key derivation) are reached through a small set of trusted
//! wrappers in `sapling_keys`.

pub mod account;
pub mod amount;
pub mod block;
mod bytes_util;
pub mod consensus;
pub mod error;
pub mod memo;
pub mod note;
pub mod sapling_keys;
pub mod scan;
pub mod txid;
pub mod wallet_db;

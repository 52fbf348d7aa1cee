//! Committee pre-signing for a fixed two-party settlement transaction graph.
//!
//! A fixed-size committee of mutually untrusting signers jointly authorizes a
//! predefined set of transactions.  The library derives deterministic signing
//! secrets from a seed, produces per-input partial signatures, aggregates
//! nonces and partial signatures into final signatures, assembles them into
//! transaction witnesses, and guards a graph against a second application of
//! committee witnesses.

pub mod types;
pub mod table;
pub mod hexfmt;
pub mod hashing;
pub mod keys;
pub mod sighash;
pub mod musig;
pub mod presign;

//! Emulation of a transaction-commitment opcode by signing oracles.
//!
//! An oracle holds a master key. For every 32-byte commitment hash it owns one
//! child key, found by walking a derivation path that `codec` computes from the
//! hash. A client that knows the master public key computes the same child
//! public key without talking to anyone; the oracle signs a spend only with the
//! key that belongs to the commitment hash of the very transaction it is given.

pub mod bytes;
pub mod client;
pub mod codec;
pub mod contract;
pub mod emulator;
pub mod federation;
pub mod msgs;
pub mod oracle;
pub mod primitives;
pub mod request;
pub mod wire;

pub use client::HDOracleEmulatorConnection;
pub use contract::{AnyContract, CompilationError, Context, Contract, DynamicContract};
pub use emulator::{CTVEmulator, Clause, EmulatorError};
pub use federation::FederatedEmulatorConnection;
pub use oracle::HDOracleEmulator;

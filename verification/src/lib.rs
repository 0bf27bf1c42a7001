//! Verified decision logic of a reth-style chain-state provider that reads its data
//! from an Ethereum JSON-RPC node.

pub mod bytecode;
pub mod bytecode_cache;
pub mod primitives;
pub mod provider;
pub mod state_lookup;
pub mod state_provider;

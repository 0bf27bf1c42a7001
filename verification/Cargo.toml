[package]
name = "alloy_reth_provider"
version = "0.1.0"
edition = "2021"
publish = false

[dependencies]
alloy-primitives = "=0.8.26"
alloy-consensus = "=0.11.1"
alloy-eips = "=0.11.1"
alloy-network = "=0.11.1"
alloy-provider = { version = "=0.11.1", default-features = false }
alloy-rpc-types-eth = "=0.11.1"
alloy-transport = "=0.11.1"
revm = { version = "=19.7.0", default-features = false, features = ["std"] }
tokio = { version = "=1.54.1", features = ["rt-multi-thread"] }
parking_lot = "=0.12.5"
serde = "=1.0.219"

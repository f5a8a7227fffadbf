[package]
name = "fraxtal_evm"
version = "0.1.0"
edition = "2021"
publish = false

[dependencies]
alloy-consensus = { version = "=2.5.0", default-features = false, features = ["k256"] }
alloy-eips = { version = "=2.5.0", default-features = false }
alloy-evm = { version = "=0.33.3", default-features = false }
alloy-op-evm = { version = "=0.32.0", default-features = false }
alloy-op-hardforks = { version = "=0.5.0", default-features = false }
alloy-primitives = { version = "=1.7.3", default-features = false }
op-alloy-consensus = { version = "=2.0.0", default-features = false, features = ["k256", "reth-core"] }
op-alloy-rpc-types-engine = { version = "=2.0.0", default-features = false }
op-revm = { version = "=20.0.0", default-features = false }
reth-primitives-traits = { version = "=0.8.2", default-features = false }
revm = { version = "=38.0.0", default-features = false }

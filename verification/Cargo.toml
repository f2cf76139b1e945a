[package]
name = "eth_call_engine"
version = "0.1.0"
edition = "2021"
publish = false

[dependencies]
ethers-core = "=2.0.14"
revm = { version = "=3.3.0", default-features = false, features = ["std"] }
revm-primitives = { version = "<1.2", default-features = false }
revm-interpreter = { version = "<1.2", default-features = false }
revm-precompile = { version = "<2.1", default-features = false }
serde = { version = "1", features = ["derive"] }
futures = "0.3"

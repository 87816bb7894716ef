[package]
name = "near_cli"
version = "0.1.0"
edition = "2021"
publish = false

[dependencies]
near-crypto = "=0.37.4"
near-primitives = "=0.37.4"
near-jsonrpc-client = "=0.22.0"
borsh = "=1.8.1"
serde_json = "=1.0.151"
ed25519-dalek = "2"
clap = { version = "*", features = ["derive"] }
dialoguer = "*"
color-eyre = "*"
tokio = { version = "*", features = ["rt-multi-thread", "macros"] }
proc-macro2 = "*"
quote = "*"
syn = "*"

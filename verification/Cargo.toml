[package]
name = "nostr_helper"
version = "0.1.0"
edition = "2021"
publish = false

[dependencies]
nostr-sdk = "*"
bech32 = "*"
tokio = { version = "*", features = ["rt-multi-thread", "macros", "time"] }
clap = { version = "*", features = ["derive"] }
anyhow = "*"

[dev-dependencies]
hex = "*"

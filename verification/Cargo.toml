[package]
name = "multisig_display"
version = "0.1.0"
edition = "2021"
publish = false

[dependencies]
clap = { version = "=4.6.7", features = ["derive"] }
colored = "=3.1.1"
eyre = "=0.6.14"
solana-sdk = "=5.0.0"
solana-sdk-ids = "=3.1.0"
solana-program = "=5.2.0"
spl-token = "=9.0.0"
spl-associated-token-account = "=8.0.0"
solana-address-lookup-table-interface = { version = "=4.0.0", features = ["bincode", "bytemuck"] }
tokio = { version = "=1.54.1", features = ["rt-multi-thread", "macros"] }

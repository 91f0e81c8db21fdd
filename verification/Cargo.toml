[package]
name = "request_units"
version = "0.1.0"
edition = "2021"
publish = false

[dependencies]
solana-program = "*"
serde = { version = "*", features = ["derive"] }

[dev-dependencies]
borsh = "*"

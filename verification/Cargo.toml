[package]
name = "tx_ledger"
version = "0.1.0"
edition = "2021"
publish = false

[dependencies]
csv = "1"
log = "0.4"
rust_decimal = "1"
serde = { version = "1", features = ["derive"] }
stderrlog = "*"

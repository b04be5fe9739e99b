[package]
name = "dune"
version = "0.1.0"
edition = "2021"
publish = false

[dependencies]
bitvec = "1"
flate2 = "=1.1.10"
serde = { version = "=1.0.229", features = ["derive"] }
serde_json = "=1.0.154"

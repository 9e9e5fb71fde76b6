[package]
name = "tmg_contracts"
version = "0.1.0"
edition = "2021"
publish = false

[dependencies]
gstd = "=2.0.0"
gmeta = { version = "=1.7.1", features = ["codegen"] }

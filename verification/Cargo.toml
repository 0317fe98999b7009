[package]
name = "test_suites"
version = "0.1.0"
edition = "2021"
publish = false

[dependencies]
soroban-sdk = { version = "=20.5.0", features = ["testutils"] }
sep-40-oracle = { version = "=0.2.0", features = ["testutils"] }
sep-41-token = { version = "=0.3.0", features = ["testutils"] }
derive_arbitrary = "=1.3.2"

[package]
name = "confidential_core"
version = "0.1.0"
edition = "2021"
publish = false

[dependencies]
anchor-lang = "=0.31.2"
anchor-spl = { version = "=0.31.2", default-features = false, features = ["token"] }
arcium-anchor = "=0.2.0"
arcium-client = { version = "=0.2.0", default-features = false }

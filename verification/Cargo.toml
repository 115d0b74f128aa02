[package]
name = "file_exchange"
version = "0.1.0"
edition = "2021"
publish = false

[dependencies]
async-trait = "0.1"
futures = "0.3"
libp2p = { version = "*", default-features = false, features = ["request-response"] }

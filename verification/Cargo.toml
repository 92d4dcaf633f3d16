[package]
name = "kraken_utils"
version = "0.1.0"
edition = "2021"
publish = false

[dependencies]
pnet = "*"
futures = "*"
log = "*"
reqwest = { version = "*", default-features = false }

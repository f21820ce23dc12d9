[package]
name = "opendal"
version = "0.1.0"
edition = "2021"
publish = false

[dependencies]
anyhow = "1"
async-trait = "0.1"
bytes = "1"
futures = "0.3"
ipfs-api = { version = "*", default-features = false, features = ["with-hyper"] }
log = "0.4"
uuid = { version = "1", features = ["v4"] }

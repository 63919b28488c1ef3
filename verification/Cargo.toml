[package]
name = "overlord"
version = "0.1.0"
edition = "2021"
publish = false

[dependencies]
bit-vec = "0.6"
bytes = "0.5"
creep = "*"
derive_more = "0.99"
futures = "0.3"
futures-timer = "3.0"
hex = "0.4"
log = "0.4"
moodyblues-sdk = "*"
rlp = "0.4"
serde = { version = "1.0", features = ["derive"] }
serde_json = "1.0"
tokio = { version = "0.2", features = ["rt-core"] }

[package]
name = "futures-cache"
version = "0.10.1"
edition = "2021"
publish = false

[dependencies]
chrono = { version = "=0.4.45", default-features = false, features = ["clock", "serde", "std"] }
crossbeam = "=0.8.5"
futures-channel = "=0.3.34"
hashbrown = "=0.9.1"
hex = "=0.4.3"
log = "=0.4.35"
parking_lot = "=0.11.2"
serde = { version = "=1.0.229", features = ["derive"] }
serde-hashkey = "=0.2.4"
serde_cbor = "=0.11.2"
serde_json = "=1.0.154"
sled = "=0.34.7"

[dev-dependencies]
futures = "=0.3.34"

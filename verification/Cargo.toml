[package]
name = "clawops"
version = "0.1.0"
edition = "2021"
publish = false

[dependencies]
chrono = { version = "=0.4.45", features = ["serde"] }
uuid = { version = "=1.29.0", features = ["v4", "serde"] }
sha2 = "=0.10.9"
hex = "=0.4.3"
serde = { version = "=1.0.229", features = ["derive"] }
serde_json = "=1.0.154"
ed25519-dalek = { version = "=2.2.0", features = ["rand_core"] }
base64 = "=0.22.1"
rand_core = { version = "=0.6.4", features = ["getrandom"] }
hmac = "0.12"

[package]
name = "passkeys"
version = "0.1.0"
edition = "2021"
publish = false

[dependencies]
bytes = "=1.12.1"
ciborium = "=0.2.2"
coset = "=0.4.2"
rand = "=0.9.5"
ring = "=0.17.14"
serde = { version = "=1.0.229", features = ["derive"] }
serde_json = "=1.0.154"
serde_with = { version = "=3.24.0", features = ["base64"] }
sha2 = "=0.10.9"
thiserror = "=2.0.21"

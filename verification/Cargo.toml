[package]
name = "sector_geometry"
version = "0.1.0"
edition = "2021"
publish = false

[dependencies]
filecoin-hashers = { version = "=1.1.0", default-features = false, features = ["pairing", "poseidon", "sha256"] }
lazy_static = "=1.5.1"
serde = { version = "=1.0.229", features = ["derive"] }
serde_json = "=1.0.154"
storage-proofs = { version = "=6.0.0", default-features = false, features = ["pairing"] }
typenum = "=1.20.1"

[package]
name = "proof_registry"
version = "0.1.0"
edition = "2021"
publish = false

[dependencies]
anyhow = "=1.0.104"
filecoin-proofs = { version = "=19.1.0", default-features = false }
serde = { version = "=1.0.229", features = ["derive"] }
storage-proofs-core = { version = "=19.1.0", default-features = false }
storage-proofs-porep = { version = "=19.1.0", default-features = false }

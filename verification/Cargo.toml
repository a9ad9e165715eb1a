[package]
name = "burn_trellis"
version = "0.1.0"
edition = "2021"
publish = false

[dependencies]
burn-core = { version = "=0.21.0", default-features = false, features = ["std"] }
burn-ndarray = { version = "=0.21.0", default-features = false, features = ["std"] }
burn-nn = { version = "=0.21.0", default-features = false, features = ["std"] }
burn-store = { version = "=0.21.0", default-features = false, features = ["std", "safetensors"] }
serde = { version = "=1.0.229", features = ["derive"] }
serde_json = "=1.0.154"

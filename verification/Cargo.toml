[package]
name = "decoderrs"
version = "0.1.0"
edition = "2021"
publish = false

[dependencies]
bitvec = "1"
nalgebra = { version = "0.33", default-features = false, features = ["std"] }
serde = { version = "1", features = ["derive"] }
serde_json = "1"

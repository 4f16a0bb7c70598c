[package]
name = "blake3_engine"
version = "0.1.0"
edition = "2021"
publish = false

[dependencies]
blake3 = { version = "*", features = ["rayon"] }
libc = "*"

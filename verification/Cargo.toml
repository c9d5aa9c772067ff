[package]
name = "matrix_svelte"
version = "0.1.0"
edition = "2021"
publish = false

[dependencies]
anyhow = "*"
argon2 = "*"
blake2 = "*"
crossbeam-channel = "*"
crossbeam-queue = "*"
htmlize = "*"
linkify = "*"
rand_chacha = "*"
rand_core = "*"
rangemap = "*"
serde = { version = "*", features = ["derive"] }
serde_json = "*"
tokio = { version = "*", features = ["sync", "rt", "time", "macros"] }
zeroize = "*"

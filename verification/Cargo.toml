[package]
name = "ddpipe"
version = "0.1.0"
edition = "2021"
publish = false

[dependencies]
bytes = "*"
hifitime = "*"
tokio = { version = "*", features = ["full"] }
clap = { version = "*", features = ["derive"] }
serde = { version = "*", features = ["derive"] }
serde_json = "*"
tracing = "*"
tracing-subscriber = { version = "*", features = ["env-filter"] }
blake2b_simd = "*"
sha3 = "*"
crc32fast = "*"

[package]
name = "ws_balancer"
version = "0.1.0"
edition = "2021"
publish = false

[dependencies]
blake3 = { version = "1", features = ["pure"] }
futures-util = { version = "0.3", features = ["sink"] }
reqwest = { version = "*", default-features = false }
serde_json = "1"
simd-json = "*"
tokio = { version = "1", features = ["sync", "rt", "macros", "time"] }
tokio-tungstenite = "*"
xxhash-rust = { version = "*", features = ["xxh3"] }

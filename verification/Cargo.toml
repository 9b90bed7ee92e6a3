[package]
name = "filo"
version = "0.1.0"
edition = "2021"
publish = false

[dependencies]
base32 = "0.5"
blake3 = { version = "1", features = ["pure"] }
ed25519-dalek = { version = "2", features = ["pkcs8", "pem", "rand_core"] }
rand = "0.8"
anyhow = "1"
serde = { version = "1", features = ["derive"] }
serde_json = "1"
tokio = { version = "1", features = ["rt-multi-thread", "macros", "sync"] }
mdns-sd = "*"
libp2p = { version = "*", features = ["tokio", "tcp", "noise", "yamux", "mdns", "gossipsub", "identify", "macros", "ed25519"] }
tracing = "0.1"
tracing-subscriber = { version = "0.3", features = ["env-filter", "fmt"] }

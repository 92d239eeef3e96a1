[package]
name = "scp"
version = "0.1.0"
edition = "2021"
publish = false

[dependencies]
blake3 = "1"
chacha20poly1305 = "0.10"
ed25519-dalek = { version = "2", features = ["rand_core"] }
x25519-dalek = { version = "2", features = ["static_secrets"] }
rand = "0.8"
rand_core = { version = "0.6", features = ["getrandom"] }
zeroize = "1"
serde = { version = "1", features = ["derive"] }
serde_json = "1"
snow = "0.9"
thiserror = "1"
tokio = { version = "1", features = ["macros", "rt-multi-thread", "net", "io-util", "time", "sync"] }

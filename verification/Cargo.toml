[package]
name = "wezterm_ai"
version = "0.1.0"
edition = "2021"
publish = false

[dependencies]
anyhow = "1"
bip39 = { version = "2", features = ["rand"] }
bs58 = "0.5"
clap = { version = "4", features = ["derive"] }
ed25519-dalek = "2"
euclid = "0.22"
keyring = "2"
lazy_static = "1"
log = "0.4"
reqwest = { version = "0.11", default-features = false, features = ["blocking", "json", "rustls-tls"] }
serde = { version = "1", features = ["derive"] }
serde_json = "1"

[package]
name = "nostrachat"
version = "0.1.0"
edition = "2021"
publish = false

[dependencies]
chrono = "=0.4.45"
colored = "=3.1.1"
crossbeam-channel = "*"
cursive = { version = "=0.21.1", features = ["toml"] }
futures = "*"
futures-util = "*"
hkdf = "=0.13.0"
nostr = { version = "=0.45.5", features = ["os-rng"] }
open = "*"
rand = "=0.8.8"
rustyline = { version = "=18.0.1", features = ["derive"] }
secp256k1 = "=0.30.0"
serde = { version = "*", features = ["derive"] }
serde_json = "=1.0.151"
sha2 = "=0.11.0"
term_size = "*"
tokio = { version = "*", features = ["rt-multi-thread", "macros", "net"] }
tokio-tungstenite = "*"
toml = "*"

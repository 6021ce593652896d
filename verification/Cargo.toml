[package]
name = "blink"
version = "0.1.0"
edition = "2021"
publish = false

[dependencies]
base64 = "0.13"
bincode = "1"
did-key = "0.2"
hmac-sha512 = "1"
libp2p = { version = "0.55", default-features = false, features = ["ed25519", "gossipsub", "identify", "kad", "macros", "mdns", "noise", "tcp", "tokio", "yamux"] }
tokio = { version = "1", default-features = false, features = ["rt-multi-thread", "sync", "time", "io-std", "io-util"] }

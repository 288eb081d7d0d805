[package]
name = "remote_signer"
version = "0.1.0"
edition = "2021"
publish = false

[dependencies]
hex = "0.4"
nostr-types = "*"
serde = { version = "1", features = ["derive"] }
serde_json = "1"
speedy = "*"
textnonce = "1"

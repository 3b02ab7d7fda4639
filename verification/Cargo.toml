[package]
name = "x509_chain"
version = "0.1.0"
edition = "2021"
publish = false

[dependencies]
x509-signature = "=0.5.0"
pem = "=0.8.3"
serde = { version = "=1.0.229", features = ["derive"] }
serde_json = "=1.0.151"
tiny-bip39 = "=2.0.0"

[dev-dependencies]
ed25519-dalek = "=3.0.0"

[package]
name = "entangled_client"
version = "0.1.0"
edition = "2021"
publish = false

[dependencies]
argon2 = "0.5"
chacha20poly1305 = "0.10"
data-encoding = "2"
eframe = { version = "0.29", default-features = false, features = ["glow", "default_fonts"] }
getrandom = "0.2"
hmac = "0.12"
serde = { version = "1", features = ["derive"] }
serde_json = "1"
sha2 = "0.10"

[dev-dependencies]
sha3 = "0.10"

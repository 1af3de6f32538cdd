[package]
name = "keypost_cli"
version = "0.1.0"
edition = "2021"
publish = false

[dependencies]
base64 = "=0.13.1"
chacha20poly1305 = "=0.9.1"
opaque-ke = "=3.0.0"
pkce = "=0.2.0"
rand = "=0.8.8"
reqwest = { version = "=0.11.27", default-features = false, features = ["blocking", "json"] }
rpassword = "=5.0.1"
rustyline = "=9.1.2"
serde = { version = "=1.0.229", features = ["derive"] }
sha2 = "=0.10.9"

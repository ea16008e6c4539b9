[package]
name = "bookmeta"
version = "0.1.0"
edition = "2021"
publish = false

[dependencies]
base64 = "=0.22.1"
epub = "=2.1.5"
hex = "=0.4.3"
lopdf = { version = "=0.34.0", default-features = false, features = ["nom_parser"] }
sha2 = "=0.10.9"
serde = { version = "=1.0.229", features = ["derive"] }
tauri = { version = "=2.12.5", default-features = false }

[package]
name = "aegis"
version = "0.1.0"
edition = "2021"
publish = false

[dependencies]
bcrypt = "=0.19.3"
hex = "=0.4.3"
rand = "=0.8.8"
rusqlite = { version = "=0.41.0", features = ["bundled"] }
serde = { version = "=1.0.229", features = ["derive"] }
tauri = { version = "2", default-features = false }
totp-lite = "*"

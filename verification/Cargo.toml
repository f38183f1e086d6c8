[package]
name = "i18n"
version = "0.1.0"
edition = "2021"
publish = false

[dependencies]
anyhow = "1"
dirs = "5"
linked-hash-map = "0.5"
log = "0.4"
lru = "0.12"
parking_lot = "0.12"
regex = "1"
serde = { version = "1", features = ["derive"] }
serde_json = "1"
sys-locale = "0.3"
thiserror = "1"
toml = "0.8"
walkdir = "2"

[package]
name = "static_cdn"
version = "0.1.0"
edition = "2021"
publish = false

[dependencies]
anyhow = "=1.0.104"
basic-toml = "=0.1.10"
clap = { version = "=4.6.7", features = ["derive"] }
indicatif = { version = "=0.18.6", features = ["rayon"] }
log = "=0.4.34"
rayon = "=1.12.0"
rusqlite = { version = "=0.40.2", features = ["fallible_uint"] }
rusqlite_migration = "=2.6.0"
serde = { version = "=1.0.229", features = ["derive"] }
serde_derive = "=1.0.229"
twox-hash = "=2.1.5"
walkdir = "=2.5.0"

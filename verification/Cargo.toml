[package]
name = "fas_rs"
version = "0.1.0"
edition = "2021"
publish = false

[dependencies]
anyhow = "1"
inotify = "*"
libc = "0.2"
log = "0.4"
parking_lot = "0.12"
quick-xml = { version = "*", features = ["serialize"] }
serde = { version = "1", features = ["derive"] }
toml = "*"

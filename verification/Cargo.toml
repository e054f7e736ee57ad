[package]
name = "dwall"
version = "0.1.0"
edition = "2021"
publish = false

[dependencies]
getrandom = "0.2"
serde = { version = "1", features = ["derive"] }
serde_json = "1"
toml = "0.8"
time = { version = "0.3", features = ["local-offset", "macros"] }
dirs = "6"
log = "0.4"
thiserror = "2"

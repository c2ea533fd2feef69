[package]
name = "liment"
version = "0.1.0"
edition = "2021"
publish = false

[dependencies]
anyhow = "*"
dirs = "*"
jiff = "*"
notify = "*"
secrecy = "*"
serde = { version = "*", features = ["derive"] }
serde_json = "*"
toml = "*"
ureq = { version = "*", default-features = false }

[package]
name = "wayclip_core"
version = "0.1.0"
edition = "2021"
publish = false

[dependencies]
serde = { version = "1", features = ["derive"] }
serde_json = "1"
toml = "*"
chrono = { version = "0.4", features = ["serde"] }
dirs = "*"
url = { version = "2", features = ["serde"] }
semver = { version = "1", features = ["serde"] }
regex = "1"
colored = "*"
cookie-rs = "*"
thiserror = "*"
log = "0.4"
keyring = "*"
reqwest = { version = "0.12", default-features = false, features = ["json", "multipart", "rustls-tls"] }
tokio = { version = "1", features = ["rt-multi-thread", "macros", "fs", "process", "time"] }

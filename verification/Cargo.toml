[package]
name = "rsocr"
version = "0.1.0"
edition = "2021"
publish = false

[dependencies]
arboard = { version = "3", features = ["wayland-data-control"] }
base64 = "=0.22.1"
chrono = "=0.4.45"
clap = { version = "=4.6.7", features = ["derive"] }
log = "=0.4.34"
reqwest = { version = "=0.12.28", default-features = false, features = ["blocking", "json"] }
rfd = "*"
serde = { version = "=1.0.229", features = ["derive"] }
serde_json = "=1.0.154"
thiserror = "=2.0.21"
toml = "=1.1.8"
tracing-subscriber = { version = "0.3", features = ["env-filter"] }

[package]
name = "amnezia-xray-admin"
version = "0.1.0"
edition = "2021"
publish = false
rust-version = "1.95"

[dependencies]
base64 = "=0.22.1"
clap = { version = "=4.6.7", features = ["derive", "env"] }
crossterm = "0.28"
dirs = "5"
env_logger = "0.11"
flate2 = "=1.1.10"
log = "0.4"
ratatui = "0.29"
serde = { version = "1", features = ["derive"] }
serde_json = "=1.0.154"
teloxide = { version = "0.13", default-features = false, features = ["macros", "rustls", "ctrlc_handler"] }
dptree = "0.3"
takecell = "=0.1.1"
tokio = { version = "1", features = ["rt-multi-thread", "macros", "sync", "process", "time", "io-util"] }
toml = "0.8"
ureq = "3"
uuid = { version = "=1.29.0", features = ["v4"] }

[package]
name = "tunnelize"
version = "0.1.0"
edition = "2021"
publish = false

[dependencies]
base64 = "0.22"
subtle = "2"
rand = "0.9"
regex = "1"
tokio = { version = "1", features = ["rt-multi-thread", "macros", "net", "io-util", "time", "sync", "signal"] }
uuid = { version = "1", features = ["v4", "serde"] }
clap = { version = "4", features = ["derive"] }
serde = { version = "1", features = ["derive"] }
serde_json = "1"
rmp-serde = "1"
bytes = "1"
log = "0.4"
env_logger = "0.11"
chrono = "0.4"

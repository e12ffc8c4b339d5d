[package]
name = "icenet_agent"
version = "0.1.0"
edition = "2021"
publish = false

[dependencies]
uuid = { version = "=1.29.0", features = ["v4", "serde"] }
getrandom = "=0.4.3"
chrono = { version = "=0.4.45", features = ["serde"] }
sha2 = "=0.10.9"
whoami = "=1.6.1"
serde = { version = "=1.0.229", features = ["derive"] }
serde_json = "=1.0.154"
serde_yaml = "=0.9.34"
bincode = "=1.3.3"
anyhow = "=1.0.104"
tokio = { version = "=1.54.1", features = ["full"] }
reqwest = { version = "=0.11.27", default-features = false, features = ["json"] }
notify = "=6.1.1"
sysinfo = "=0.29.11"
hostname = "=0.3.1"
sys-info = "=0.9.1"
nix = { version = "=0.27.1", features = ["signal", "process"] }
clap = { version = "=4.6.7", features = ["derive"] }
tracing = "=0.1.44"
tracing-subscriber = { version = "=0.3.23", features = ["env-filter"] }
dashmap = "=5.5.3"

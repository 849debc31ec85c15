[package]
name = "bpfagent"
version = "0.2.0"
edition = "2021"
publish = false

[dependencies]
anyhow = "1"
aya = "0.13"
aya-log = "0.2"
clap = { version = "4", features = ["derive"] }
env_logger = "0.11"
libc = "0.2"
log = "0.4"
prometheus = "*"
serde = { version = "1", features = ["derive"] }
tokio = { version = "1", features = ["full"] }
tokio-util = "0.7"
toml = "*"

[package]
name = "lnd_exporter"
version = "0.1.0"
edition = "2021"
publish = false

[dependencies]
clap = { version = "4", features = ["derive"] }
env_logger = "0.11"
hyper = { version = "0.14", features = ["full"] }
lnrpc = "*"
log = "0.4"
prometheus = "0.13"
tokio = { version = "1", features = ["full"] }

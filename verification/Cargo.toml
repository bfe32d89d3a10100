[package]
name = "rgb_lightning_node"
version = "0.1.0"
edition = "2021"
publish = false

[dependencies]
lightning = "*"
bitcoin = "0.32"
vss-client = "*"
biscuit-auth = "*"
tokio = { version = "1", features = ["rt-multi-thread", "sync", "time", "macros"] }
tracing = "0.1"
serde = { version = "1", features = ["derive"] }
toml = "*"
clap = { version = "4", features = ["derive"] }
chrono = "0.4"

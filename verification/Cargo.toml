[package]
name = "near_node_config"
version = "0.1.0"
edition = "2021"
publish = false

[dependencies]
time = "=0.3.55"
near-primitives-core = "=0.31.1"
near-async = "=0.31.1"
near-o11y = "=0.31.1"
serde = { version = "=1.0.229", features = ["derive"] }
serde_repr = "=0.1.21"
strum = { version = "=0.28.0", features = ["derive"] }
borsh = { version = "=1.8.1", features = ["derive"] }

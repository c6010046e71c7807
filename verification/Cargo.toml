[package]
name = "neonex"
version = "0.1.0"
edition = "2021"
publish = false

[dependencies]
rand = "=0.10.3"
ratatui = "=0.29.0"
soft_ratatui = "=0.2.0"
uefi = "=0.41.0"
serde = { version = "=1.0.229", features = ["derive"] }
serde_json = "=1.0.151"
color-eyre = "=0.6.5"

[package]
name = "admin_share"
version = "0.1.0"
edition = "2021"
publish = false

[dependencies]
cosmwasm-std = "=2.3.5"
cw-storey = "=0.4.0"
cw-utils = "=2.0.0"
serde = { version = "=1.0.229", features = ["derive"] }

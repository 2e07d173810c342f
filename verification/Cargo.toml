[package]
name = "station"
version = "0.1.0"
edition = "2021"
publish = false

[dependencies]
ic-stable-structures = "=0.7.2"
ic-cdk = "=0.20.3"
candid = "=0.10.37"
uuid = { version = "=1.27.0", features = ["v4"] }
clap = { version = "=4.6.7", features = ["derive"] }
walkdir = "=2.5.0"
ic-ledger-types = "=0.16.0"
anyhow = "=1.0.104"
serde = { version = "=1.0.229", features = ["derive"] }

[package]
name = "rover_dev"
version = "0.1.0"
edition = "2021"
publish = false

[dependencies]
anyhow = "=1.0.104"
apollo-federation-types = "=0.14.1"
camino = "=1.2.6"
clap = { version = "=4.6.7", features = ["derive"] }
crossbeam-channel = "=0.5.17"
interprocess = "=2.4.7"
rayon = "=1.12.0"
semver = "=1.0.28"
serde = { version = "=1.0.229", features = ["derive"] }
serde_json = "=1.0.154"
tracing = "=0.1.44"
url = "=2.5.8"

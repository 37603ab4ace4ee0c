[package]
name = "pulsar_cat"
version = "0.1.0"
edition = "2021"
publish = false

[dependencies]
anyhow = "*"
clap = { version = "*", features = ["derive"] }
flate2 = "*"
futures = "*"
pulsar = "*"
serde_json = "*"
thiserror = "*"
tokio = { version = "*", features = ["full"] }

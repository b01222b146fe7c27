[package]
name = "docan_rs"
version = "0.1.0"
edition = "2021"
publish = false

[dependencies]
iso14229-1 = "*"
iso15765-2 = "*"
rs-can = "*"
rsutil = "*"
bytes = "*"
hex = "*"
serde = { version = "*", features = ["derive"] }
serde_yaml = "*"
tokio = { version = "*", features = ["full"] }
async-trait = "*"

[package]
name = "mobc_boltrs"
version = "0.1.0"
edition = "2021"
publish = false

[dependencies]
async-trait = "=0.1.92"
bolt-client = { version = "=0.11.0", features = ["tokio-stream"] }
bolt-proto = "=0.12.0"
mobc = "=0.9.0"
tokio = { version = "=1.53.2", features = ["net", "io-util", "rt"] }
tokio-util = { version = "=0.7.19", features = ["compat"] }

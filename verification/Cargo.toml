[package]
name = "credit_flow"
version = "0.1.0"
edition = "2021"
publish = false

[dependencies]
anyhow = "1"
async-stream = "0.3"
futures-core = "0.3"
log = "0.4"
tokio = { version = "1", default-features = false, features = ["sync"] }

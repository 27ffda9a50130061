[package]
name = "sui-orchestrator"
version = "0.1.0"
edition = "2021"
publish = false

[dependencies]
futures = "0.3"
num-integer = "0.1"
prettytable-rs = "0.10"
prometheus-parse = "0.2"
serde = { version = "1", features = ["derive"] }
serde_json = "1"
ssh2 = "0.9"
tokio = { version = "1", features = ["net", "time", "rt", "rt-multi-thread", "macros"] }

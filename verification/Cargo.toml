[package]
name = "asset_sync"
version = "0.1.0"
edition = "2021"
publish = false

[dependencies]
md5 = "=0.7.0"
reqwest = { version = "=0.12.28", features = ["json", "stream"] }
serde = { version = "=1.0.229", features = ["derive"] }
serde_json = "=1.0.154"
tokio = { version = "=1.54.1", features = ["fs", "io-util", "macros", "rt-multi-thread", "signal"] }
tokio-stream = "=0.1.19"

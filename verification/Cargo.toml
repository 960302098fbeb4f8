[package]
name = "parquetb"
version = "0.1.0"
edition = "2021"
publish = false

[dependencies]
arrow = "=60.0.0"
parquet = { version = "=60.0.0", features = ["arrow"] }
chrono = "=0.4.45"
serde_json = "=1.0.151"
tokio = { version = "=1.53.2", features = ["rt-multi-thread", "macros", "sync", "io-util", "fs"] }

[dev-dependencies]
bytes = "=1.12.1"

[package]
name = "aetelier"
version = "0.1.0"
edition = "2021"
publish = false

[dependencies]
rust_decimal = "=1.43.0"
serde_json = "=1.0.154"
quick-xml = "=0.37.5"
chrono = { version = "=0.4.45", default-features = false, features = ["std", "clock"] }
serde = { version = "=1.0.229", features = ["derive"] }
tokio = { version = "=1.54.1", features = ["rt-multi-thread", "macros", "sync", "time"] }
tokio-tungstenite = "=0.30.0"
reqwest = { version = "=0.13.5", default-features = false, features = ["json"] }
arrow = { version = "=60.1.0", default-features = false }
parquet = { version = "=60.1.0", default-features = false, features = ["arrow", "snap"] }
lz4_flex = "=0.14.0"
futures-util = { version = "=0.3.34", default-features = false, features = ["std", "sink"] }

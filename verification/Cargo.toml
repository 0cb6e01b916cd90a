[package]
name = "block_runtime"
version = "0.1.0"
edition = "2021"
publish = false

[dependencies]
futures = "0.3"
serde = { version = "1", features = ["derive"] }
tokio = { version = "1", features = ["macros", "rt", "sync", "time", "test-util"] }

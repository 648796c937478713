[package]
name = "rs-retryablehttp"
version = "0.1.0"
edition = "2021"
publish = false

[dependencies]
httpdate = "=1.0.3"
rand = "=0.9.5"
reqwest = { version = "=0.12.28", features = ["stream"] }
thiserror = "=2.0.21"
tokio = { version = "=1.54.1", features = ["time"] }
tracing = "=0.1.44"

[dev-dependencies]
futures-util = "=0.3.34"
tokio = { version = "=1.54.1", features = ["rt", "time"] }

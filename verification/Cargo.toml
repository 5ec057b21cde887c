[package]
name = "velm"
version = "0.1.0"
edition = "2021"
publish = false

[dependencies]
unicode-segmentation = "=1.13.3"
crossterm = { version = "=0.29.0", features = ["event-stream"] }
tokio = { version = "=1.53.2", features = ["sync", "macros", "rt-multi-thread"] }
tokio-stream = "=0.1.19"
futures = "=0.3.34"
anyhow = "=1.0.104"
backtrace = "=0.3.76"

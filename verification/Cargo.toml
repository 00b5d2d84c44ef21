[package]
name = "feed_ui"
version = "0.1.0"
edition = "2021"
publish = false

[dependencies]
anyhow = "1"
crossterm = { version = "0.28", features = ["event-stream"] }
futures-util = "0.3"
textwrap = "0.16"
tokio = { version = "1", features = ["macros", "rt-multi-thread", "sync"] }

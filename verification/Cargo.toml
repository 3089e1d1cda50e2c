[package]
name = "omni_can"
version = "0.1.0"
edition = "2021"
publish = false

[dependencies]
socketcan = { version = "3", features = ["tokio"] }
tokio = { version = "1", features = ["rt-multi-thread", "macros", "time", "sync"] }
futures-util = "0.3"

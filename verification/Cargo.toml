[package]
name = "mutex_timeouts"
version = "0.1.0"
edition = "2021"
publish = false

[dependencies]
tokio = { version = "1", default-features = false, features = ["sync"] }
once_cell = "1"

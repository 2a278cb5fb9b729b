[package]
name = "focus_monitor"
version = "0.1.0"
edition = "2021"
publish = false

[dependencies]
anyhow = "1"
tokio = { version = "1", default-features = false, features = ["sync"] }
xcb = "1"

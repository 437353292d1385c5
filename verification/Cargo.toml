[package]
name = "capture_guard"
version = "0.1.0"
edition = "2021"
publish = false

[dependencies]
serde_json = "=1.0.154"
tokio = { version = "=1.54.1", default-features = false, features = ["time"] }
windows = { version = "0.58", default-features = false, features = ["Win32_Foundation", "Win32_UI_WindowsAndMessaging"] }

[package]
name = "telemetry_listener"
version = "0.1.0"
edition = "2021"
publish = false

[dependencies]
serde = { version = "1", features = ["derive"] }
tauri = { version = "2", default-features = false, features = ["wry"] }
tauri-plugin-window-state = "2"
tokio = { version = "1", features = ["macros", "net", "rt", "sync", "time"] }

[package]
name = "opencode_ui"
version = "0.1.0"
edition = "2021"
publish = false

[dependencies]
dirs = "=5.0.1"
fs2 = "=0.4.3"
reqwest = { version = "=0.12.28", default-features = false }
serde = { version = "=1.0.229", features = ["derive"] }
serde_json = "=1.0.154"
tauri = { version = "=2.12.5", default-features = false }
tauri-plugin-updater = { version = "2", default-features = false }
tauri-plugin-window-state = "=2.5.0"
thiserror = "=1.0.69"
tokio = { version = "=1.54.1", features = ["process", "io-util", "sync", "time", "rt", "macros"] }

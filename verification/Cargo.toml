[package]
name = "tauri-plugin-iap"
version = "0.1.0"
edition = "2021"
publish = false

[dependencies]
serde = { version = "1", features = ["derive"] }
serde_json = "1"
thiserror = "2"
swift-bridge = "0.1"
objc2-security = "0.3"
windows = { version = "0.62", features = ["Services_Store", "Foundation", "Foundation_Collections"] }
windows-collections = "0.3"
windows-result = "0.4"

[package]
name = "caldash"
version = "0.1.0"
edition = "2021"
publish = false

[dependencies]
chrono = "=0.4.45"
ratatui = "=0.29.0"
reqwest = { version = "=0.13.5", default-features = false }
serde_json = "=1.0.151"
tokio = { version = "=1.53.2", features = ["macros", "rt-multi-thread"] }
tui-textarea = "=0.7.0"

[package]
name = "app_lifecycle"
version = "0.1.0"
edition = "2021"
publish = false

[dependencies]
anyhow = "1"
chrono = "0.4"
flexi_logger = "*"
log = "0.4"
once_cell = "1"
serde_json = "1"
sys-locale = "0.3"
tauri = { version = "2", default-features = false }
tokio = { version = "1", features = ["fs"] }

[package]
name = "backend_supervisor"
version = "0.1.0"
edition = "2021"
publish = false

[dependencies]
tauri = { version = "2", default-features = false, features = ["wry"] }
tokio = { version = "1", features = ["time"] }
log = "0.4"
env_logger = { version = "0.11", default-features = false }
open = "5"

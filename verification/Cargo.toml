[package]
name = "tea"
version = "0.1.0"
edition = "2021"
publish = false

[dependencies]
image = { version = "=0.25.10", default-features = false, features = ["png"] }
serde = { version = "=1.0.229", features = ["derive"] }
serde_json = { version = "=1.0.154", features = ["preserve_order"] }
log = "=0.4.34"
env_logger = { version = "=0.11.11", default-features = false }
tokio = { version = "=1.54.1", default-features = false, features = ["rt-multi-thread", "macros", "time"] }
enigo = "=0.6.1"
windows = { version = "=0.61.3", default-features = false, features = ["Win32_System_Power"] }

[package]
name = "media_manager_core"
version = "0.1.0"
edition = "2021"
publish = false

[dependencies]
async-recursion = "1"
chrono = "0.4"
clap = { version = "4", features = ["derive"] }
directories = "*"
env_logger = "*"
log = "0.4"
serde = { version = "1", features = ["derive"] }
serde_json = "1"
thiserror = "1"
tokio = { version = "1", features = ["fs", "process", "macros", "rt-multi-thread", "sync"] }

[package]
name = "session_core"
version = "0.1.0"
edition = "2021"
publish = false

[dependencies]
anyhow = "1"
async-trait = "0.1"
bubblers = "*"
env_logger = "0.11"
log = "0.4"
russh = "0.45"
russh-keys = "0.45"
tokio = { version = "1", features = ["macros", "rt-multi-thread"] }

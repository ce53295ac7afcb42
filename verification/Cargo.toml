[package]
name = "redbot"
version = "0.1.0"
edition = "2021"
publish = false

[dependencies]
url = "=2.5.8"
uuid = { version = "=1.27.0", features = ["v4"] }
teloxide = "=0.12.2"
roux = "=2.3.0"
tokio = { version = "1", features = ["macros", "rt-multi-thread", "process", "fs"] }
serde = { version = "1", features = ["derive"] }
serde_json = "1"
log = "0.4"
pretty_env_logger = "0.5"
takecell = "=0.1.1"

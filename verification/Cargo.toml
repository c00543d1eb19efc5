[package]
name = "deepseek_bot"
version = "0.1.0"
edition = "2021"
publish = false

[dependencies]
serde = { version = "*", features = ["derive"] }
serde_json = "=1.0.151"
reqwest = { version = "=0.13.5", default-features = false }
toml = "*"
tokio = { version = "*", features = ["rt-multi-thread", "macros"] }
teloxide = { version = "=0.17.0", default-features = false, features = ["macros"] }
dptree = "*"
log = "*"
simple_logger = "*"
url = "*"
takecell = "=0.1.1"

[package]
name = "teleemix"
version = "0.1.0"
edition = "2021"
rust-version = "1.95"
publish = false

[dependencies]
regex = "=1.13.1"
serde_json = "=1.0.154"
md5 = "=0.7.0"
serde = { version = "1", features = ["derive"] }
reqwest = { version = "=0.11.27", default-features = false, features = ["json", "multipart", "cookies", "rustls-tls"] }
teloxide = { version = "=0.12.2", default-features = false, features = ["macros", "rustls", "ctrlc_handler"] }
takecell = "=0.1.1"
tokio = { version = "=1.54.1", features = ["full"] }
log = "0.4"
pretty_env_logger = "0.5"
dotenvy = "0.15"

[package]
name = "be_low_level"
version = "0.1.0"
edition = "2021"
publish = false

[dependencies]
chrono = "0.4"
deadpool-redis = "*"
email_address = "0.2"
env_logger = "*"
log = "0.4"
rand = "0.9"
salvo = "*"
serde = { version = "1", features = ["derive"] }
tokio = { version = "1", features = ["macros", "rt-multi-thread"] }
uuid = { version = "1", features = ["v4"] }

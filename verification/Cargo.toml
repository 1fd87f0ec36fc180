[package]
name = "duskura"
version = "0.1.0"
edition = "2021"
publish = false

[dependencies]
sha2 = "0.10"
hex = "0.4"
rand = "0.8"
base64 = "0.21"
argon2 = "0.5"
uuid = { version = "1", features = ["v4"] }
chrono = "0.4"
serde = { version = "1", features = ["derive"] }
serde_json = "1"
thiserror = "1"
anyhow = "1"
clap = { version = "4", features = ["derive"] }
tokio = { version = "1", features = ["macros", "rt-multi-thread", "fs"] }
sqlx = { version = "0.7", default-features = false, features = ["sqlite", "runtime-tokio"] }
tracing-subscriber = { version = "0.3", features = ["env-filter"] }

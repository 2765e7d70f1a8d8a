[package]
name = "rustbasic_cli"
version = "0.1.0"
edition = "2021"
publish = false

[dependencies]
regex = "1"
base64 = "0.22"
rand = "0.9"
chrono = "0.4"
colored = "3"
dotenvy = "0.15"
tokio = { version = "1", features = ["rt-multi-thread"] }
serde = { version = "1", features = ["derive"] }
serde_json = "1"
sqlx = { version = "0.8", default-features = false, features = ["runtime-tokio", "any", "sqlite", "mysql"] }
sea-orm-migration = { version = "1", default-features = false }

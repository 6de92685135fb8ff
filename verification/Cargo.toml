[package]
name = "forge_notify"
version = "0.1.0"
edition = "2021"
publish = false

[dependencies]
uuid = "*"
serde = { version = "*", features = ["derive"] }
serde_json = "*"
reqwest = { version = "*", default-features = false, features = ["json"] }
tokio = { version = "*", features = ["rt-multi-thread", "macros", "time"] }
sqlx = { version = "*", default-features = false, features = ["runtime-tokio", "sqlite"] }

[package]
name = "kron"
version = "0.1.0"
edition = "2021"
publish = false

[dependencies]
chrono = "*"
rodio = "*"
serde = { version = "*", features = ["derive"] }
serde_json = "*"
sqlx = { version = "*", default-features = false, features = ["sqlite", "runtime-tokio"] }
tokio = { version = "*", features = ["rt-multi-thread", "time", "macros"] }

[package]
name = "zoohelp-backend"
version = "0.1.0"
edition = "2021"
publish = false

[dependencies]
validator = "=0.21.0"
chrono = { version = "=0.4.45", default-features = false, features = ["clock", "std"] }
argon2 = { version = "=0.5.3", features = ["std"] }
serde = { version = "=1.0.229", features = ["derive"] }
anyhow = "=1.0.104"
dotenvy = "=0.15.7"
sqlx = { version = "0.8", default-features = false, features = ["postgres", "runtime-tokio"] }
tokio = { version = "1", features = ["macros", "rt-multi-thread", "signal"] }

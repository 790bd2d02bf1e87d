[package]
name = "itilsuite"
version = "0.1.0"
edition = "2021"
publish = false

[dependencies]
regex = "1"
ipnet = "2"
uuid = { version = "1", features = ["v4", "serde"] }
serde = { version = "1", features = ["derive"] }
serde_json = "1"
chrono = { version = "0.4", features = ["serde"] }
tokio = { version = "1", features = ["macros", "rt-multi-thread", "sync", "time"] }
axum = "0.7"
sqlx = { version = "0.7", default-features = false, features = ["runtime-tokio", "postgres", "uuid", "chrono", "json", "macros"] }
askama = "0.12"
tracing = "0.1"
urlencoding = "2"

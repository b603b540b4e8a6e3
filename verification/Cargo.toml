[package]
name = "mystery_box"
version = "0.1.0"
edition = "2021"
publish = false

[dependencies]
axum = { version = "0.7", features = ["multipart"] }
bcrypt = "=0.15.1"
chrono = { version = "=0.4.45", features = ["serde"] }
futures = "0.3"
mime = "0.3"
rand = "=0.8.8"
serde = { version = "1", features = ["derive"] }
sqlx = { version = "0.7", default-features = false, features = ["runtime-tokio", "postgres", "uuid", "chrono"] }
thiserror = "1"
tokio = { version = "1", features = ["full"] }
tokio-util = { version = "0.7", features = ["io"] }
tower-cookies = "0.10"
tower-http = { version = "0.5", features = ["cors"] }
uuid = { version = "=1.29.0", features = ["v4", "serde"] }

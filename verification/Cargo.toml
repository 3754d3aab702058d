[package]
name = "monolith_server"
version = "0.1.0"
edition = "2021"
publish = false

[dependencies]
anyhow = "=1.0.104"
axum = "=0.6.20"
bcrypt = "=0.15.1"
chrono = { version = "=0.4.45", features = ["serde"] }
jsonwebtoken = "=9.3.1"
once_cell = "=1.21.4"
prometheus = "=0.13.4"
serde = { version = "=1.0.229", features = ["derive"] }
serde_json = "=1.0.154"
sqlx = { version = "=0.7.4", default-features = false, features = ["runtime-tokio", "postgres", "uuid", "chrono", "json"] }
tokio = { version = "=1.54.1", features = ["full"] }
tower-http = { version = "=0.4.4", features = ["trace"] }
tracing = "=0.1.44"
tracing-subscriber = { version = "=0.3.23", features = ["env-filter"] }
utoipa = { version = "=4.2.3", features = ["uuid"] }
utoipa-swagger-ui = { version = "=4.0.0", features = ["axum"] }
uuid = { version = "=1.29.0", features = ["v4", "serde"] }

[package]
name = "sectxt"
version = "0.1.0"
edition = "2021"
publish = false

[dependencies]
uuid = { version = "=1.29.1", features = ["v7", "serde"] }
chrono = "=0.4.45"
axum = "=0.8.9"
tokio = { version = "=1.54.1", features = ["macros", "rt-multi-thread", "net", "time"] }
sqlx = { version = "=0.8.6", default-features = false, features = ["runtime-tokio", "postgres", "uuid", "chrono"] }
serde = { version = "=1.0.229", features = ["derive"] }
serde_with = { version = "=3.24.0", features = ["base64"] }
tracing = "=0.1.44"
tracing-subscriber = "=0.3.23"
tower-http = { version = "=0.6.11", features = ["compression-gzip", "cors", "trace"] }
dotenvy = "=0.15.7"
async-trait = "=0.1.92"
thiserror = "=2.0.21"
utoipa = { version = "=5.5.0", features = ["axum_extras", "uuid", "chrono"] }
utoipa-axum = "=0.2.0"

[package]
name = "url_shortener"
version = "0.1.0"
edition = "2021"
publish = false

[dependencies]
nanoid = "0.4"
validator = { version = "0.18", features = ["derive"] }
axum = "0.7"
tokio = { version = "1", features = ["macros", "rt-multi-thread", "signal", "net"] }
sqlx = { version = "0.8", default-features = false, features = ["runtime-tokio", "mysql", "chrono", "macros"] }
deadpool-redis = "0.18"
redis = "0.27"
serde = { version = "1", features = ["derive"] }
serde_json = "1"
chrono = { version = "0.4", features = ["serde"] }
thiserror = "1"
utoipa = { version = "5", features = ["axum_extras", "chrono"] }
utoipa-scalar = { version = "0.2", features = ["axum"] }
dotenvy = "0.15"
tracing-subscriber = "0.3"

[package]
name = "shrs"
version = "0.1.0"
edition = "2021"
publish = false

[dependencies]
sha2 = "0.10"
hex = "0.4"
small_uid = "*"
axum = "0.8"
tokio = { version = "1", features = ["full"] }
sqlx = { version = "0.8", default-features = false, features = ["postgres", "runtime-tokio", "derive"] }
mobc = "*"
mobc-redis = "*"
tera = "1"
serde = { version = "1", features = ["derive"] }
toml = "*"
thiserror = "*"
time = { version = "0.3", features = ["formatting", "parsing", "local-offset"] }
tracing = "0.1"
tracing-appender = "0.2"
tracing-subscriber = { version = "0.3", features = ["env-filter", "time", "local-time"] }
tower-http = { version = "0.6", features = ["fs"] }

[package]
name = "cardmate"
version = "0.1.0"
edition = "2021"
publish = false

[dependencies]
rand = "=0.8.8"
serde = { version = "=1.0.229", features = ["derive"] }
serde_json = "=1.0.154"
tokio = { version = "=1.54.1", features = ["rt-multi-thread", "macros", "sync", "time", "net"] }
axum = { version = "=0.7.9", features = ["ws"] }
futures = "=0.3.34"
log = "=0.4.35"
uuid = { version = "=1.29.0", features = ["v4"] }
cookie = "=0.18.2"
deadpool-redis = "=0.23.1"
sqlx = { version = "=0.9.0", default-features = false, features = ["postgres", "runtime-tokio"] }
jsonwebtoken = "9"

[package]
name = "demo_lambda_axum"
version = "0.1.0"
edition = "2021"
publish = false

[dependencies]
askama = "=0.16.1"
axum = "=0.8.9"
axum-extra = { version = "=0.12.6", features = ["cookie-private", "query"] }
base64 = "=0.22.1"
bb8 = "=0.9.1"
bb8-postgres = "=0.9.0"
chrono = { version = "=0.4.45", features = ["serde"] }
config = "=0.15.27"
dotenvy = "=0.15.7"
lambda_http = "=1.3.2"
lambda_runtime = "=1.5.0"
native-tls = "=0.2.18"
postgres-native-tls = "=0.5.3"
refinery = { version = "=0.10.0", features = ["tokio-postgres"] }
serde = { version = "=1.0.229", features = ["derive"] }
serde_json = "=1.0.154"
time = "=0.3.55"
tokio = { version = "=1.54.1", features = ["macros", "rt-multi-thread"] }
tokio-postgres = { version = "=0.7.18", features = ["with-uuid-1", "with-chrono-0_4"] }
tower-http = { version = "=0.7.1", features = ["fs"] }
tracing = "=0.1.44"
tracing-subscriber = { version = "=0.3.23", features = ["env-filter"] }
uuid = { version = "=1.29.0", features = ["v7", "serde"] }
validator = "=0.21.0"

[dev-dependencies]
cookie = { version = "=0.18.2", features = ["private"] }

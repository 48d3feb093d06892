[package]
name = "simplife"
version = "0.1.0"
edition = "2021"
publish = false

[dependencies]
sha3 = "0.10"
rand = "0.8"
chrono = "0.4"
serde = { version = "1", features = ["derive"] }
serde_json = "1"
tokio = { version = "1", features = ["full"] }
axum = "0.6"
hyper = { version = "0.14", features = ["full"] }
http = "0.2"
tower = "0.4"
tonic = "0.9"
prost = "0.11"
redis = { version = "0.23", features = ["tokio-comp", "connection-manager"] }
sqlx = { version = "0.6", features = ["runtime-tokio-rustls", "mysql", "chrono"] }
opentelemetry = "0.19"
opentelemetry-jaeger = { version = "0.18", features = ["rt-tokio"] }
clap = { version = "4", features = ["derive"] }
log = "0.4"
futures = "0.3"
lazy_static = "1"
thiserror = "1"

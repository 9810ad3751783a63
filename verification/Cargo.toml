[package]
name = "seer"
version = "0.1.0"
edition = "2021"
publish = false

[dependencies]
anyhow = "=1.0.104"
axum = "=0.8.9"
axum-extra = { version = "=0.10.3", features = ["typed-header"] }
chrono = { version = "=0.4.45", features = ["serde"] }
config = { version = "=0.15.27", default-features = false, features = ["toml"] }
geojson = "=1.0.0"
graphql_client = "=0.16.0"
opentelemetry = "=0.33.1"
opentelemetry-appender-tracing = "=0.33.1"
opentelemetry-http = "=0.33.1"
opentelemetry-otlp = { version = "=0.33.1", features = ["grpc-tonic", "logs", "trace", "tls-ring", "tls-roots"] }
opentelemetry_sdk = "=0.33.1"
opentelemetry-semantic-conventions = "=0.33.1"
redis = { version = "=1.8.1", features = ["aio", "tokio-comp", "connection-manager"] }
regex = "=1.13.1"
reqwest = { version = "=0.12.28", default-features = false, features = ["json", "rustls-tls"] }
serde = { version = "=1.0.229", features = ["derive"] }
serde_json = "=1.0.154"
sqlx = { version = "=0.8.6", default-features = false, features = ["runtime-tokio", "postgres", "chrono", "migrate", "json"] }
thiserror = "=2.0.21"
tokio = { version = "=1.54.1", features = ["full"] }
tower-http = { version = "=0.6.11", features = ["trace"] }
tracing = "=0.1.44"
tracing-opentelemetry = "=0.34.0"
tracing-subscriber = { version = "=0.3.23", features = ["env-filter"] }
urlencoding = "=2.1.3"
validator = "=0.20.0"

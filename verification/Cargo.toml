[package]
name = "axum_template"
version = "0.1.0"
edition = "2021"
publish = false

[dependencies]
anyhow = "1"
axum = { version = "0.6", features = ["headers"] }
axum-macros = "0.3"
chrono = { version = "=0.4.45", default-features = false, features = ["std"] }
clap = { version = "4", features = ["derive", "env"] }
config = { version = "0.13", default-features = false, features = ["yaml"] }
deadpool-redis = "0.14"
derive_more = "0.99"
directories = "5"
dotenvy = "0.15"
hyper = "0.14"
jsonwebtoken = "=8.3.0"
reqwest = { version = "0.11", default-features = false, features = ["json", "rustls-tls"] }
secrecy = { version = "0.8", features = ["serde"] }
serde = { version = "1", features = ["derive"] }
serde_json = "=1.0.154"
sqlx = { version = "0.7", default-features = false, features = ["runtime-tokio-rustls", "postgres"] }
thiserror = "1"
tokio = { version = "1", features = ["macros", "rt-multi-thread"] }
tower-http = { version = "0.4", features = ["cors", "trace"] }
tracing = "0.1"
tracing-bunyan-formatter = "0.3"
tracing-log = "0.1"
tracing-subscriber = { version = "0.3", features = ["env-filter", "registry"] }
validator = "=0.16.1"

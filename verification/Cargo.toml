[package]
name = "algotrader"
version = "0.1.0"
edition = "2021"
publish = false

[dependencies]
chrono = "0.4"
hmac = "0.12"
sha2 = "0.10"
hex = "0.4"
anyhow = "1"
thiserror = "1"
dotenvy = "0.15"
futures = "0.3"
serde = { version = "1", features = ["derive"] }
serde_json = "1"
tokio = { version = "1", features = ["full"] }
tracing = "0.1"
tracing-subscriber = { version = "0.3", features = ["env-filter"] }
reqwest = { version = "0.11", default-features = false, features = ["json", "rustls-tls"] }
sqlx = { version = "0.7", default-features = false, features = ["sqlite", "runtime-tokio", "chrono", "migrate"] }
tokio-tungstenite = "0.21"
config = { version = "0.14", default-features = false, features = ["toml"] }

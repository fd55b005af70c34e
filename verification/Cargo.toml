[package]
name = "lazer_stats"
version = "0.1.0"
edition = "2021"
publish = false

[dependencies]
chrono = { version = "0.4", features = ["serde"] }
serde = { version = "1", features = ["derive"] }
axum = "0.8"
axum-prometheus = "*"
color-eyre = "0.6"
futures = "0.3"
mimalloc = "*"
rosu-v2 = "*"
rustls = { version = "0.23", default-features = false, features = ["ring", "std"] }
sqlx = { version = "0.8", default-features = false, features = ["runtime-tokio", "postgres", "chrono", "macros"] }
tokio = { version = "1", features = ["full"] }
tower-http = { version = "*", features = ["trace"] }
tracing = "0.1"
tracing-subscriber = { version = "0.3", features = ["env-filter", "fmt"] }

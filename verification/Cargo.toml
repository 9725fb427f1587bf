[package]
name = "newfm"
version = "0.1.0"
edition = "2021"
publish = false

[dependencies]
aide = { version = "0.14", features = ["axum", "axum-json", "axum-query", "axum-multipart", "scalar", "macros"] }
anyhow = "1"
argon2 = "0.5"
axum = { version = "0.8", features = ["multipart"] }
chrono = { version = "0.4", features = ["serde"] }
dotenvy = "0.15"
fred = { version = "10", features = ["subscriber-client"] }
futures-util = "0.3"
hex = "0.4"
image = { version = "0.25", default-features = false, features = ["jpeg", "png", "webp"] }
rand = "0.8"
reqwest = { version = "0.12", default-features = false, features = ["json", "rustls-tls"] }
schemars = { version = "0.8", features = ["chrono", "uuid1"] }
serde = { version = "1", features = ["derive"] }
serde_json = "1"
sha2 = "0.10"
sqlx = { version = "0.8", default-features = false, features = ["postgres", "runtime-tokio", "chrono", "uuid"] }
thiserror = "2"
tokio = { version = "1", features = ["full"] }
tokio-stream = "0.1"
tower-http = { version = "0.6", features = ["compression-gzip", "cors", "fs", "trace"] }
tracing = "0.1"
tracing-subscriber = { version = "0.3", features = ["env-filter"] }
ts-rs = { version = "11", features = ["chrono-impl", "uuid-impl"] }
uuid = { version = "1", features = ["serde", "v4"] }

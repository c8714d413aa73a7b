[package]
name = "qtss_worker"
version = "0.1.0"
edition = "2021"
publish = false

[dependencies]
rust_decimal = "1"
serde = { version = "1", features = ["derive"] }
serde_json = "1"
tokio = { version = "1", features = ["rt-multi-thread", "macros", "time"] }
sqlx = { version = "0.8", default-features = false, features = ["postgres", "runtime-tokio", "chrono", "uuid", "rust_decimal", "json", "macros"] }
tracing = "0.1"
chrono = "0.4"
anyhow = "1"
uuid = { version = "1", features = ["v4"] }
reqwest = { version = "0.12", default-features = false, features = ["json", "rustls-tls"] }
async-trait = "0.1"
futures-util = "0.3"
sha2 = "0.10"
tokio-tungstenite = { version = "*", default-features = false, features = ["connect"] }

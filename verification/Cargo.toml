[package]
name = "rust_bot"
version = "0.1.0"
edition = "2021"
publish = false

[dependencies]
serde_json = "=1.0.151"
serde = { version = "=1.0.229", features = ["derive"] }
axum = "=0.8.9"
tokio = { version = "=1.53.2", features = ["rt-multi-thread", "macros", "time", "net", "sync"] }
reqwest = { version = "=0.12.28", default-features = false, features = ["json", "multipart", "rustls-tls"] }
sqlx = { version = "=0.9.0", default-features = false, features = ["runtime-tokio", "sqlite"] }
chrono = "0.4"
dotenv = "=0.15.0"
env_logger = "=0.11.11"
log = "=0.4.34"
tower-http = { version = "=0.7.1", features = ["fs"] }

[package]
name = "ntnu_course_bot"
version = "0.1.0"
edition = "2021"
publish = false

[dependencies]
anyhow = "=1.0.104"
dotenv = "=0.15.0"
env_logger = "=0.11.11"
envconfig = "=0.11.1"
infer = "=0.22.0"
kv = { version = "=0.24.0", features = ["compression", "msgpack-value"] }
log = "=0.4.34"
poise = "=0.6.2"
regex = "=1.13.1"
reqwest = { version = "=0.12.28", default-features = false, features = ["charset", "cookies", "http2", "json", "rustls-tls"] }
reqwest_cookie_store = "=0.8.2"
serde = { version = "=1.0.229", features = ["derive"] }
serenity = { version = "=0.12.5", default-features = false, features = ["builder", "cache", "client", "gateway", "http", "model", "rustls_backend"] }
thiserror = "=1.0.69"
tokio = { version = "=1.54.1", features = ["macros", "rt-multi-thread", "signal", "sync", "time"] }

[package]
name = "kv_gateway"
version = "0.1.0"
edition = "2021"
publish = false

[dependencies]
axum = "0.5"
clap = { version = "3.2", features = ["derive"] }
mimalloc = "0.1"
redis = { version = "0.21", features = ["tokio-comp"] }
thiserror = "1"
tokio = { version = "1", features = ["macros", "rt-multi-thread"] }
tower = { version = "0.4", features = ["limit", "load-shed", "timeout", "util"] }
tower-http = { version = "0.3", features = ["add-extension", "auth", "compression-gzip", "trace"] }
tracing = "0.1"
tracing-subscriber = "0.3"

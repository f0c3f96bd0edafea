[package]
name = "xadrez"
version = "0.1.0"
edition = "2021"
publish = false

[dependencies]
shakmaty = "=0.30.1"
uuid = { version = "=1.27.0", features = ["v4", "serde"] }
axum = "=0.8.9"
serde = { version = "=1.0.229", features = ["derive"] }
serde_json = "=1.0.151"
thiserror = "=2.0.21"
tokio = { version = "=1.53.2", features = ["macros", "rt-multi-thread", "net", "sync"] }
tower-http = { version = "=0.7.1", features = ["compression-gzip", "decompression-gzip", "cors", "trace"] }
tracing = "=0.1.44"
tracing-subscriber = { version = "=0.3.23", features = ["env-filter", "fmt"] }

[package]
name = "mangalib_parser"
version = "0.1.0"
edition = "2021"
publish = false

[dependencies]
serde = { version = "*", features = ["derive"] }
serde_json = "*"
tokio = { version = "*", features = ["macros", "rt-multi-thread", "sync", "net", "fs", "io-util"] }
axum = "*"
lapin = "*"
futures = "*"
reqwest = { version = "*", default-features = false, features = ["json", "rustls-tls"] }
clap = "*"
thiserror = "*"
tracing = "*"
tracing-subscriber = { version = "*", features = ["env-filter", "json"] }
tracing-appender = "*"
dotenv = "*"
once_cell = "*"
headless_chrome = "*"
governor = "*"
async-stream = "*"

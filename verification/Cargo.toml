[package]
name = "socks_proxy"
version = "0.1.0"
edition = "2021"
publish = false

[dependencies]
anyhow = "1"
slog = "2"
slog-term = "2"
smallvec = "1"
thiserror = "1"
tokio = { version = "1", features = ["io-util", "macros", "net", "rt-multi-thread"] }

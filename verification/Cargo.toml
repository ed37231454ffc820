[package]
name = "socks5_rs"
version = "0.1.0"
edition = "2021"
publish = false

[dependencies]
tokio = { version = "1", features = ["full"] }
log = "0.4"
env_logger = "0.10"
rustls = "0.21"
rustls-pemfile = "1"
tokio-rustls = "0.24"

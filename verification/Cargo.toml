[package]
name = "revproxy"
version = "0.1.0"
edition = "2021"
publish = false

[dependencies]
anyhow = "1"
async-trait = "0.1"
chrono = "0.4"
fast-socks5 = "0.9"
maud = "*"
salvo = { version = "*", features = ["rustls", "quinn", "force-https"] }
tokio = { version = "1", features = ["full"] }
tracing = "0.1"
tracing-subscriber = { version = "0.3", features = ["env-filter", "json"] }

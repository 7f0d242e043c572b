[package]
name = "rustls-spiffe"
version = "0.1.0"
edition = "2021"
publish = false

[dependencies]
rustls = "=0.23.46"
rustls-config-stream = "=0.2.0"
spiffe = "=0.6.7"
tokio = { version = "=1.54.1", features = ["net"] }
tokio-rustls = "=0.26.6"
tokio-stream = "=0.1.19"
x509-parser = "=0.18.1"

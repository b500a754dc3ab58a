[package]
name = "msir"
version = "0.1.0"
edition = "2021"
publish = false

[dependencies]
rml_amf0 = "=0.3.0"
byteorder = "=1.5.0"
bytes = "=1.12.1"
url = "=2.5.8"
rand = "=0.8.8"
chrono = "=0.4.45"
uuid = { version = "=1.29.0", features = ["v4"] }
tokio = { version = "=1.54.1", features = ["full"] }
tracing = "=0.1.44"
tracing-subscriber = "=0.3.23"
tracing-appender = "=0.2.5"
thiserror = "=1.0.69"
anyhow = "=1.0.104"
serde = { version = "=1.0.229", features = ["derive"] }
toml = "=0.8.23"
clap = "=4.6.7"
hyper = { version = "0.14", features = ["full"] }
axum = "0.6"

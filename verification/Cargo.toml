[package]
name = "clouds_viewer"
version = "0.1.0"
edition = "2021"
publish = false

[dependencies]
base64 = "=0.13.1"
form_urlencoded = "=1.2.2"
rand = "=0.8.8"
http = "=0.2.12"
hyper = { version = "=0.14.32", features = ["full"] }
hyper-rustls = { version = "=0.23.2", features = ["http2"] }
tokio = { version = "=1.53.2", features = ["rt-multi-thread", "sync", "time", "net", "macros"] }
serde = { version = "=1.0.229", features = ["derive"] }
serde_json = "=1.0.151"
backoff = { version = "=0.4.0", features = ["tokio"] }
chrono = { version = "=0.4.45", features = ["serde"] }
bytes = "=1.12.1"
http-body = "=0.4.6"
futures = "=0.3.34"
futures-util = "=0.3.34"
webbrowser = "=0.8.15"
open = "=3.2.0"

[package]
name = "poc_client"
version = "0.1.0"
edition = "2021"
publish = false

[dependencies]
anyhow = "1"
erased-serde = "0.3"
futures = "0.3"
http = "0.2"
hyper = { version = "0.14", features = ["client", "http1", "http2", "tcp", "stream"] }
isahc = { version = "1", features = ["json"] }
serde = { version = "1", features = ["derive"] }
serde_json = "1"
serde_urlencoded = "0.7"
thiserror = "1"
tokio = { version = "1", features = ["full"] }
tower = { version = "0.4", features = ["limit", "util"] }

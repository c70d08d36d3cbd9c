[package]
name = "netcore"
version = "0.1.0"
edition = "2021"
publish = false

[dependencies]
actix = "=0.13.5"
actix-files = "=0.6.10"
actix-http = { version = "=3.19.0", features = ["ws"] }
actix-web = { version = "=4.18.1", default-features = false, features = ["macros", "ws"] }
actix-web-actors = "=4.3.1"
anyhow = "1"
dashmap = "=5.5.3"
futures = "0.3"
futures-util = "0.3"
pyo3 = "=0.20.3"
pyo3-asyncio = { version = "=0.20.0", features = ["tokio-runtime"] }
socket2 = "=0.5.10"
tokio = { version = "1", features = ["rt", "rt-multi-thread"] }
uuid = { version = "=1.29.0", features = ["v4"] }

[package]
name = "syncroom"
version = "0.1.0"
edition = "2021"
publish = false

[dependencies]
flume = "=0.11.1"
rand = "=0.8.8"
uuid = "=1.29.1"
serde = { version = "=1.0.229", features = ["derive"] }
serde_json = "=1.0.154"
tokio = { version = "=1.54.1", features = ["rt-multi-thread", "macros", "sync"] }
tokio-stream = "=0.1.19"
warp = "=0.3.7"
actix = "=0.13.5"
actix-web = { version = "=4.18.1", default-features = false, features = ["ws"] }
actix-web-actors = "=4.3.1"

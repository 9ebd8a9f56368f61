[package]
name = "sse_countdown"
version = "0.1.0"
edition = "2021"
publish = false

[dependencies]
tokio = { version = "1", features = ["sync", "rt-multi-thread", "time", "macros"] }
actix-web = "4"
actix-web-lab = "*"
futures-util = "0.3"
log = "0.4"

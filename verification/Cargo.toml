[package]
name = "ehentai"
version = "0.1.0"
edition = "2021"
publish = false

[dependencies]
hyper = { version = "0.14", features = ["client", "http1", "tcp"] }
hyper-tls = "0.5"
select = "0.6"
tokio-stream = "0.1"

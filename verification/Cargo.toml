[package]
name = "qproxy"
version = "0.1.0"
edition = "2021"
publish = false

[dependencies]
http = "*"
hyper = { version = "*", features = ["client", "http1"] }
hyper-util = { version = "*", features = ["client", "client-legacy", "http1", "tokio"] }
http-body-util = "*"
hyper-tls = "*"
quinn = "*"
tokio = { version = "*", features = ["full"] }
futures = "*"
tracing = "*"
tracing-subscriber = "*"
structopt = "*"

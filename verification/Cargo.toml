[package]
name = "chaussette"
version = "0.1.0"
edition = "2021"
publish = false

[dependencies]
anyhow = "1"
boring = "*"
bytes = "1"
futures-util = "0.3"
h2 = "0.4"
http = "1"
http-body = "1"
http-body-util = "0.1"
hyper = { version = "1", features = ["client", "http1", "http2"] }
hyper-boring = "*"
hyper-util = { version = "0.1", features = ["client", "client-legacy", "http1", "http2", "tokio"] }
socks5-proto = "*"
socks5-server = "*"
thiserror = "*"
tokio = { version = "1", features = ["io-util", "macros", "net", "rt-multi-thread", "sync", "time"] }
tokio-quiche = "*"
tokio-util = "0.7"
tower = { version = "*", features = ["retry", "util"] }
tracing = "0.1"
url = "2"

[package]
name = "liveview"
version = "0.1.0"
edition = "2021"
publish = false

[dependencies]
cursive = { version = "=0.17.0", default-features = false, features = ["crossterm-backend"] }
failure = "=0.1.8"
futures = "=0.3.34"
http = "=0.2.12"
http-serve = "=0.3.6"
hyper = { version = "=0.14.32", features = ["http1", "server", "stream", "tcp"] }
log = "=0.4.34"
retina = "=0.3.10"
tokio = { version = "=1.54.1", features = ["macros", "rt-multi-thread", "time"] }
tokio-stream = "=0.1.19"
tokio-tungstenite = "=0.15.0"
url = "=2.2.2"
uuid = { version = "=0.8.2", features = ["v4"] }

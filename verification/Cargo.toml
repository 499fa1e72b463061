[package]
name = "threadshare"
version = "0.1.0"
edition = "2021"
publish = false

[dependencies]
either = "1"
futures = "0.3"
glib = "0.9"
gstreamer = "0.15"
lazy_static = "1"
rand = "0.7"
tokio = { version = "0.2", features = ["io-util", "rt-core", "rt-util", "sync", "tcp", "time"] }

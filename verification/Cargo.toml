[package]
name = "smart_home"
version = "0.1.0"
edition = "2021"
publish = false

[dependencies]
rand = "0.8"
tokio = { version = "1", features = ["net", "rt", "rt-multi-thread", "io-util", "sync", "time", "macros"] }
log = "0.4"
simple_logger = "4"

[package]
name = "stream_pool"
version = "0.1.0"
edition = "2021"
publish = false

[dependencies]
crossbeam-channel = "=0.5.17"
linefeed = "=0.6.0"
socket2 = { version = "=0.6.5", features = ["all"] }

[package]
name = "udp_session"
version = "0.1.0"
edition = "2021"
publish = false

[dependencies]
bytes = "1"
socket2 = "0.5"
tokio = { version = "1", features = ["macros", "net", "rt", "sync", "time"] }
tracing = "0.1"

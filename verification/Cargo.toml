[package]
name = "iggy_server"
version = "0.1.0"
edition = "2021"
publish = false

[dependencies]
ahash = "=0.8.12"
bytes = "=1.12.1"
compio = { version = "=0.19.2", features = ["macros", "time", "fs", "io", "runtime"] }
rand = "=0.10.3"
secrecy = "=0.10.3"
tokio = { version = "=1.54.1", features = ["sync"] }
tracing = "=0.1.44"

[package]
name = "ovim"
version = "0.1.0"
edition = "2021"
publish = false

[dependencies]
tokio = { version = "=1.54.1", features = ["sync", "net", "io-util", "rt", "macros"] }
serde = { version = "=1.0.229", features = ["derive"] }
serde_json = "=1.0.154"
serde_yml = "=0.0.13"
dirs = "=7.0.0"
log = "=0.4.34"
core-graphics = "=0.25.0"
core-foundation = "=0.10.1"
libc = "=0.2.191"
uuid = { version = "1", features = ["v4"] }
objc = "0.2"

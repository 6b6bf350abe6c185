[package]
name = "seesaw"
version = "0.1.0"
edition = "2021"
publish = false

[dependencies]
async-trait = "0.1"
bytes = "1"
dashmap = "6"
dirs = "*"
humantime-serde = "1"
libc = "0.2"
netlink-packet-core = "0.7"
netlink-packet-generic = "0.3"
netlink-packet-utils = "0.5"
netlink-sys = "0.8"
reqwest = { version = "0.12", default-features = false, features = ["rustls-tls"] }
serde = { version = "1", features = ["derive"] }
serde_json = "1"
serde_yaml = "0.9"
socket2 = { version = "0.5", features = ["all"] }
thiserror = "1"
tokio = { version = "1", features = ["full"] }
tracing = "0.1"
validator = { version = "*", features = ["derive"] }

[package]
name = "wark"
version = "0.1.0"
edition = "2021"
publish = false

[dependencies]
wasmer = "=4.2.8"
wasmer-types = "=4.2.8"
wasmer-wasix = { version = "=0.18.3", default-features = false, features = ["sys", "logging", "host-fs", "sys-poll", "sys-thread", "host-vnet", "host-threads"] }
virtual-fs = { version = "=0.11.2", default-features = false }
mio = { version = "=0.8.11", features = ["net", "os-poll", "os-ext"] }
getrandom = { version = "=0.2.17", features = ["custom"] }
sha256 = { version = "=1.6.0", default-features = false }
base64 = "=0.22.1"
jsonwebtoken = "=9.3.1"
clap = { version = "=4.6.7", features = ["string"] }
serde = { version = "=1.0.229", features = ["derive"] }
serde_json = "=1.0.154"
tracing = "=0.1.44"
tracing-subscriber = "=0.3.23"

[dev-dependencies]
wasmer-compiler = { version = "=4.2.8", features = ["translator"] }

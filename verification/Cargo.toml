[package]
name = "zccache"
version = "0.1.0"
edition = "2021"
publish = false

[dependencies]
arc-swap = "1"
bincode = "1.3"
blake3 = "1"
dashmap = "6"
filetime = "0.2"
libc = "0.2"
rayon = "1"
regex = "1"
running-process = "*"
serde = { version = "1", features = ["derive"] }
serde_json = "1"
sysinfo = "*"
tokio = { version = "1", features = ["sync", "time", "process", "io-util", "rt", "rt-multi-thread", "macros"] }
tracing = "0.1"

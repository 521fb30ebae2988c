[package]
name = "subuidless"
version = "0.1.0"
edition = "2021"
publish = false

[dependencies]
anyhow = "1"
inventory = "0.3"
libseccomp = "0.3"
nix = { version = "0.28", features = ["fs", "process", "sched", "user"] }
protobuf = "3"
rustix = { version = "0.38", features = ["fs", "process"] }
sendfd = "0.4"
serde_json = "1"
thiserror = "1"

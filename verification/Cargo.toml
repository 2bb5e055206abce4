[package]
name = "testcontainers"
version = "0.1.0"
edition = "2021"
publish = false

[dependencies]
astral-tokio-tar = "0.5"
bollard = "0.19"
bytes = "1"
futures = "0.3"
log = "0.4"
russh = { version = "0.54", default-features = false, features = ["aws-lc-rs"] }
semver = "1"
thiserror = "2"
tokio = { version = "1", features = ["fs", "io-util", "macros", "net", "rt-multi-thread", "sync", "time"] }
tokio-stream = "0.1"
ulid = "1"
url = "2"

[dev-dependencies]
tempfile = "3"
tokio-util = { version = "0.7", features = ["io"] }

[package]
name = "lychee"
version = "0.4.0"
edition = "2021"
publish = false

[dependencies]
check-if-email-exists = "0.8"
fast_chemail = "0.9"
http = "0.2"
hubcaps = "0.6"
regex = "1"
reqwest = { version = "0.11", features = ["gzip"] }
serde = { version = "1", features = ["derive"] }
serde_json = "1"
tokio = { version = "1", features = ["time"] }
url = "2"

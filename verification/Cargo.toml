[package]
name = "streamgrab"
version = "0.1.0"
edition = "2021"
publish = false

[dependencies]
chrono = "=0.4.45"
regex = "=1.13.1"
dashmap = "=6.2.1"
serde = { version = "=1.0.229", features = ["derive"] }
serde_json = "=1.0.154"
log = "=0.4.35"
once_cell = "=1.21.4"
zip = { version = "=2.6.1", default-features = false, features = ["deflate"] }
flate2 = "=1.1.10"
tar = "=0.4.46"
lzma-rs = "=0.3.0"
which = "=6.0.3"
reqwest = { version = "0.12", default-features = false, features = ["blocking", "rustls-tls"] }

[package]
name = "minelaunch"
version = "0.1.0"
edition = "2021"
publish = false

[dependencies]
sha1 = { version = "=0.6.1", features = ["std"] }
serde = { version = "=1.0.229", features = ["derive"] }
serde_json = "=1.0.154"
reqwest = { version = "=0.11.27", default-features = false, features = ["rustls-tls"] }
async-std = { version = "=1.13.2", features = ["unstable", "tokio1"] }
futures = "=0.3.34"
bytes = "=1.12.1"
flate2 = "=1.1.10"
tar = "=0.4.46"
zip = { version = "=0.6.6", default-features = false, features = ["deflate"] }
tempfile = "=3.27.0"
walkdir = "=2.5.0"
iced = { version = "=0.3.0", default-features = false, features = ["glow"] }

[dev-dependencies]
regex = "1"

[package]
name = "kilam_launcher"
version = "0.1.0"
edition = "2021"
publish = false

[dependencies]
hex = "=0.4.3"
md-5 = "=0.10.6"
sha1 = "=0.10.7"
sha2 = "=0.10.9"
uuid = "=1.29.0"
serde = { version = "=1.0.229", features = ["derive"] }
serde_json = "=1.0.154"
thiserror = "=2.0.21"
async-trait = "=0.1.92"
tokio = { version = "=1.54.1", features = ["rt", "sync", "macros"] }
reqwest = { version = "=0.12.28", default-features = false, features = ["json", "rustls-tls"] }
zip = { version = "=2.6.1", default-features = false, features = ["deflate"] }
keyring = { version = "3", features = ["apple-native", "windows-native", "linux-native"] }

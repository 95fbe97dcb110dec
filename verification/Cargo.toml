[package]
name = "csf-core"
version = "0.1.0"
edition = "2021"
publish = false

[dependencies]
base64 = "=0.22.1"
sha2 = "=0.10.9"
ring = "=0.17.14"
x509-parser = "=0.16.0"
aes-gcm = "=0.10.3"
serde = { version = "=1.0.229", features = ["derive"] }
serde_json = "=1.0.154"
tokio = { version = "=1.54.1", features = ["fs", "process", "time", "rt-multi-thread", "macros", "sync", "io-util"] }
uuid = { version = "=1.29.0", features = ["v4", "serde"] }
chrono = { version = "=0.4.45", features = ["serde"] }
anyhow = "=1.0.104"
thiserror = "=2.0.21"
sysinfo = "=0.33.1"
rcgen = "=0.13.2"
totp-rs = { version = "=5.7.2", features = ["otpauth", "qr"] }
rand = "=0.8.8"

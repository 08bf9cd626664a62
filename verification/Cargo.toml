[package]
name = "sheil"
version = "0.1.4"
edition = "2021"
publish = false

[dependencies]
aes-gcm = "=0.10.3"
rand = "=0.10.3"
serde = { version = "=1.0.229", features = ["derive"] }
serde_json = "=1.0.154"
uuid = { version = "=1.29.1", features = ["v7"] }
russh = "=0.61.2"
russh-sftp = "2"
sqlx = { version = "0.8", default-features = false, features = ["sqlite", "runtime-tokio", "migrate"] }
tokio = { version = "=1.54.1", features = ["full"] }
log = "=0.4.35"
thiserror = "=2.0.21"
futures = "=0.3.34"
encoding_rs = "=0.8.44"

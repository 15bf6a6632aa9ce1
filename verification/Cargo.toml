[package]
name = "pam_password_fingerprint"
version = "0.1.0"
edition = "2021"
publish = false

[dependencies]
futures-util = "0.3"
libc = "0.2"
tokio = { version = "1", features = ["rt", "time", "net", "io-util"] }
zbus = { version = "5", default-features = false, features = ["tokio"] }

[package]
name = "rddns"
version = "0.7.0"
edition = "2021"
publish = false

[dependencies]
idna = "=1.1.0"
url = "=2.5.8"
regex = "=1.13.1"
fastrand = "=2.5.0"
serde = { version = "=1.0.229", features = ["derive"] }
serde_json = "=1.0.154"
serde_yaml = "=0.9.34"
tokio = { version = "=1.54.1", features = ["rt-multi-thread", "macros", "time", "net", "sync", "signal", "process", "fs"] }
tokio-util = "=0.7.20"
reqwest = { version = "=0.12.28", default-features = false, features = ["json", "rustls-tls"] }
chrono = "=0.4.45"
clap = { version = "=4.6.7", features = ["derive"] }
log = "=0.4.35"
anyhow = "=1.0.104"
thiserror = "=2.0.21"
parking_lot = "=0.12.5"
base64 = "=0.22.1"
hex = "=0.4.3"
bcrypt = "=0.15.1"
network-interface = "2"
lettre = { version = "0.11", default-features = false, features = ["builder", "smtp-transport", "tokio1", "tokio1-rustls-tls"] }

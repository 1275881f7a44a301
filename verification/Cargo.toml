[package]
name = "pcgd_sync"
version = "0.1.0"
edition = "2021"
publish = false

[dependencies]
base64 = "=0.22.1"
calamine = "=0.37.0"
colored = "=2.2.0"
inquire = "=0.7.5"
regex = "=1.13.1"
reqwest = { version = "=0.12.28", default-features = false, features = ["blocking", "rustls-tls"] }
rfd = "=0.14.1"
serde = { version = "=1.0.229", features = ["derive"] }
serde_json = "=1.0.154"
unidecode = "=0.3.0"

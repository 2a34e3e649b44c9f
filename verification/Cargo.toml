[package]
name = "hake"
version = "0.1.0"
edition = "2021"
publish = false

[dependencies]
base64 = "0.13"
anyhow = "1"
console = "*"
dirs = "*"
structopt = "*"
reqwest = { version = "*", default-features = false, features = ["blocking", "rustls-tls"] }

[dev-dependencies]
serde_json = "1"
serde_yaml = "*"

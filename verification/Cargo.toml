[package]
name = "acdi"
version = "0.5.0"
edition = "2021"
publish = false

[dependencies]
regex = "1"
x509-parser = "0.16"
uuid = { version = "1", features = ["v4"] }
chrono = "0.4"
clap = { version = "4", features = ["derive"] }
serde = { version = "1", features = ["derive"] }
serde_json = "1"
anyhow = "1"
tracing = "0.1"
tracing-subscriber = { version = "0.3", features = ["env-filter"] }
tokio = { version = "1", features = ["full"] }
rustls = { version = "0.23", default-features = false, features = ["ring", "std", "tls12", "logging"] }
tokio-rustls = { version = "0.26", default-features = false, features = ["ring", "tls12", "logging"] }
webpki-roots = "0.26"
indicatif = "0.17"
rayon = "1"
notify = "6"
comfy-table = "7"
owo-colors = "4"
zip = { version = "2", default-features = false, features = ["deflate"] }
goblin = "0.8"
ignore = "0.4"

[dev-dependencies]
base64 = "0.22"

[package]
name = "elefren"
version = "0.1.0"
edition = "2021"
publish = false

[dependencies]
async-h1 = "2"
async-mutex = "1"
async-native-tls = "0.3"
async-trait = "0.1"
chrono = { version = "0.4", features = ["serde"] }
http-types = "2"
hyper-old-types = "0.11"
isolang = "*"
log = "0.4"
reqwest = { version = "0.11", features = ["blocking", "json", "multipart"] }
serde = { version = "1", features = ["derive"] }
serde_json = "1"
serde_qs = "*"
serde_urlencoded = "0.7"
smol = "1"
tap-reader = "*"
toml = "0.5"
tungstenite = "0.11"
url = "2"

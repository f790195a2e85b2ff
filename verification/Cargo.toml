[package]
name = "groupme_hvz_rs"
version = "0.1.0"
edition = "2021"
publish = false

[dependencies]
regex = "1"
url = "2"
rand = "0.8"
chrono = "0.4"
serde = { version = "1", features = ["derive"] }
serde_json = "1"
reqwest = { version = "0.12", features = ["blocking", "json"] }
cookie = "0.18"
postgres = "0.19"
postgres-native-tls = "0.5"
native-tls = "0.2"
scraper = "*"
uuid = { version = "1", features = ["v4", "serde"] }
image = { version = "0.25", default-features = false, features = ["png"] }
rusttype = "0.9"
clap = "4"
ctrlc = "3"
gotham = "*"
mime = "0.3"

[package]
name = "yaydl"
version = "0.1.0"
edition = "2021"
publish = false

[dependencies]
anyhow = "1"
cienli = "*"
clap = { version = "4", features = ["derive"] }
env_proxy = "*"
fantoccini = "*"
indicatif = "*"
inventory = "*"
m3u8-rs = "*"
nom = "7"
regex = "1"
scraper = "*"
serde_json = "1"
tokio = { version = "1", features = ["rt", "time", "net"] }
ureq = "3"
url = "2"
urlencoding = "2"

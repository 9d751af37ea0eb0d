[package]
name = "tvrank"
version = "0.9.0"
edition = "2021"
publish = false

[dependencies]
atoi = "2"
aho-corasick = "1"
deunicode = "1"
titlecase = "2"
humantime = "2"
truncatable = "0.1"
url = "2"
clap = { version = "4", features = ["derive"] }
directories = "5"
env_logger = "0.11"
log = "0.4"
indicatif = "0.17"
prettytable-rs = "0.10"
reqwest = { version = "0.12", default-features = false, features = ["blocking", "rustls-tls"] }
flate2 = "1"
walkdir = "2"
serde = { version = "1", features = ["derive"] }
serde_json = "1"
serde_yaml = "0.9"
thiserror = "1"
rayon = "1"
parking_lot = "0.12"

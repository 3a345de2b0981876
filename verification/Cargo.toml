[package]
name = "clashrpc"
version = "0.1.0"
edition = "2021"
publish = false

[dependencies]
chrono = "0.4"
semver = "1"
serde = { version = "1", features = ["derive"] }
serde_json = "1"
reqwest = { version = "0.12", default-features = false, features = ["blocking", "json", "rustls-tls"] }
zip = { version = "2", default-features = false, features = ["deflate"] }
console = "*"
indicatif = "*"
inquire = "*"
figlet-rs = "*"
discord-rich-presence = "*"
dotenvy = "*"

[package]
name = "iridium_weatherstation"
version = "0.3.0"
edition = "2021"
publish = false

[dependencies]
byteorder = "1"
chrono = "0.4"
clap = "2"
log = "0.4"
mysql = "*"
regex = "1"
serde = { version = "1", features = ["derive"] }
serde_json = "1"
simplelog = "0.11"

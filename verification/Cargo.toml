[package]
name = "nakji"
version = "0.1.0"
edition = "2021"
publish = false

[dependencies]
semver = "1"
serde = { version = "1", features = ["derive"] }
serde_json = "1"
serde_yaml = "0.9"
thiserror = "*"
log = "0.4"
walkdir = "2"
protobuf = "3"
reqwest = { version = "*", default-features = false, features = ["blocking"] }
rdkafka = "*"

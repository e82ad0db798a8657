[package]
name = "paw"
version = "0.1.0"
edition = "2021"
publish = false

[dependencies]
psutil = { version = "3", default-features = false, features = ["process"] }
serde = "1"
serde_derive = "1"

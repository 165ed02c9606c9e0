[package]
name = "rssucks"
version = "0.1.0"
edition = "2021"
publish = false

[dependencies]
egui = "0.23"
url = "2"
uuid = { version = "1", features = ["v4"] }

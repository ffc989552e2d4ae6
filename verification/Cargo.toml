[package]
name = "rubra"
version = "0.1.0"
edition = "2021"
publish = false

[dependencies]
gtk4 = "*"
webkit6 = "*"
serde = { version = "1", features = ["derive"] }
serde_json = "1"
url = "2"
urlencoding = "2"

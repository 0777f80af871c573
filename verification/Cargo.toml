[package]
name = "rtdlib"
version = "0.1.0"
edition = "2021"
publish = false

[dependencies]
scraper = "*"
uuid = { version = "*", features = ["v4"] }
serde = { version = "*", features = ["derive"] }
serde_json = "*"
typetag = "*"
rstring-builder = "*"
text-reader = "*"
toolkit = "*"

[package]
name = "restq"
version = "0.1.0"
edition = "2021"
publish = false

[dependencies]
base64 = "0.22"
chrono = "0.4"
csv = "1"
http = "1"
percent-encoding = "2"
uuid = "1"

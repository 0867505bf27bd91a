[package]
name = "google_timeline_parser"
version = "0.1.0"
edition = "2021"
publish = false

[dependencies]
struson = "*"
chrono = "*"
zip = "*"
anyhow = "*"

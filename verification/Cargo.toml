[package]
name = "website_checker"
version = "0.1.0"
edition = "2021"
publish = false

[dependencies]
chrono = "0.4"
ureq = { version = "2", default-features = false }

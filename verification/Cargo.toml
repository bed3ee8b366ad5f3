[package]
name = "ui_harness"
version = "0.1.0"
edition = "2021"
publish = false

[dependencies]
lazy_static = "*"
reqwest = { version = "*", default-features = false, features = ["blocking", "json"] }
serde = { version = "*", features = ["derive"] }
serde_json = "*"

[package]
name = "paywall_rules"
version = "0.1.0"
edition = "2021"
publish = false

[dependencies]
currency = "*"
html_editor = "*"
regex = "1"
serde = { version = "1", features = ["derive"] }
thiserror = "*"

[package]
name = "forge_installer"
version = "0.1.0"
edition = "2021"
publish = false

[dependencies]
anyhow = "*"
regex = "*"
reqwest = { version = "*", default-features = false }
serde_json = "*"
tokio = { version = "*", default-features = false, features = ["fs", "rt"] }
zip = "*"

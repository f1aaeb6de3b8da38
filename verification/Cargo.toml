[package]
name = "package_manager"
version = "0.1.0"
edition = "2021"
publish = false

[dependencies]
anyhow = "1"
miette = "7"
node-semver = "2"
regex = "1"
serde = { version = "1", features = ["derive"] }
serde_json = "1"
serde_yaml = "0.9"
tracing = "0.1"
wax = "0.6"
which = "4"

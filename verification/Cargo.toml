[package]
name = "settings"
version = "0.1.0"
edition = "2021"
publish = false

[dependencies]
directories = "5"
log = "0.4"
ron = "0.8"
serde = { version = "1", features = ["derive"] }
thiserror = "1"

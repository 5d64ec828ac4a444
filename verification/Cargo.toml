[package]
name = "generic-camera"
version = "0.1.0"
edition = "2021"
publish = false

[dependencies]
rand = "=0.8.8"
refimage = "0.8"
serde = { version = "=1.0.229", features = ["derive"] }
thiserror = "=1.0.69"
documented = "=0.10.0"

[package]
name = "smearor_wrot"
version = "0.1.0"
edition = "2021"
publish = false

[dependencies]
dashmap = "=6.2.1"
serde = { version = "=1.0.229", features = ["derive"] }
thiserror = "=2.0.21"
image = { version = "=0.25.10", default-features = false, features = ["png"] }

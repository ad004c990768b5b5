[package]
name = "uniffi_meta"
version = "0.1.0"
edition = "2021"
publish = false

[dependencies]
anyhow = "1"
serde = { version = "1", features = ["derive"] }
siphasher = "0.3"

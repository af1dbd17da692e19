[package]
name = "openapi_ir"
version = "0.1.0"
edition = "2021"
publish = false

[dependencies]
aide = "0.13"
schemars = "0.8"
serde = { version = "1", features = ["derive"] }
serde_json = "1"
indexmap = "2"

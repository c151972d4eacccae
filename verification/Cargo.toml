[package]
name = "steel_registry"
version = "0.1.0"
edition = "2021"
publish = false

[dependencies]
heck = "=0.5.0"
proc-macro2 = "=1.0.107"
serde = { version = "=1.0.229", features = ["derive"] }
serde_json = "=1.0.154"
unicode-ident = "=1.0.27"

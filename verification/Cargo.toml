[package]
name = "tagged_types"
version = "0.1.0"
edition = "2021"
publish = false

[dependencies]
proc-macro2 = "1"
quote = "1"
syn = "2"
proc-macro-crate = "*"
serde = { version = "1", features = ["derive"] }
serde_json = "1"

[package]
name = "typeglue"
version = "0.1.0"
edition = "2021"
publish = false

[dependencies]
syn = { version = "2", features = ["full"] }
quote = "1"
proc-macro-error = "1"

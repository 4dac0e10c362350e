[package]
name = "cdp_bindings"
version = "0.1.0"
edition = "2021"
publish = false

[dependencies]
convert_case = "0.4"
proc-macro2 = "1"
quote = "1"
serde = { version = "1", features = ["derive"] }
serde_json = "1"
ureq = "2"

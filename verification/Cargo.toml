[package]
name = "snips_nlu_lib"
version = "0.1.0"
edition = "2021"
publish = false

[dependencies]
itertools = "*"
serde = { version = "*", features = ["derive"] }
serde_json = "*"
tempfile = "*"
zip = "*"

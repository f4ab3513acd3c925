[package]
name = "zed_latex"
version = "0.1.0"
edition = "2021"
publish = false

[dependencies]
anyhow = "=1.0.104"
hayro = "=0.9.0"
serde_json = { version = "=1.0.154", features = ["preserve_order"] }
serde_json_lenient = "=0.2.4"
smol = "=2.0.2"
tempfile = "=3.27.0"

[package]
name = "asimov_gemini_module"
version = "0.1.0"
edition = "2021"
publish = false

[dependencies]
serde_json = "*"
ureq = "3"
clap = { version = "4", features = ["derive"] }
colored = "*"

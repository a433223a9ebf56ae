[package]
name = "revoker"
version = "0.1.0"
edition = "2021"
publish = false

[dependencies]
serde_json = "=1.0.151"
attohttpc = { version = "=0.31.0", default-features = false, features = ["form"] }

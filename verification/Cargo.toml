[package]
name = "asb_interpreter"
version = "0.1.0"
edition = "2021"
publish = false

[dependencies]
encoding_rs = "0.8"
mlua = { version = "0.10", features = ["lua51", "vendored", "send"] }
serde = { version = "1", features = ["derive"] }
serde_json = "1"

[package]
name = "zeptomail"
version = "0.1.0"
edition = "2021"
publish = false

[dependencies]
reqwest = { version = "*", default-features = false, features = ["multipart"] }
tokio = { version = "*", features = ["rt-multi-thread", "macros"] }

[dev-dependencies]
serde_json = "*"

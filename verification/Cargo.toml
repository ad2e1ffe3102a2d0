[package]
name = "wiregui"
version = "0.1.0"
edition = "2021"
publish = false

[dependencies]
elevated-command = "1.1"
log = "0.4"
tokio = { version = "1", features = ["macros", "rt-multi-thread"] }

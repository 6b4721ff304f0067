[package]
name = "task_runner"
version = "0.1.0"
edition = "2021"
publish = false

[dependencies]
reqwest = { version = "0.12", features = ["blocking"] }

[dev-dependencies]
http = "1"

[package]
name = "blank_lambda"
version = "0.1.0"
edition = "2021"
publish = false

[dependencies]
lambda_runtime = "*"
reqwest = "*"
serde = { version = "1", features = ["derive"] }
serde_json = "1"
tokio = { version = "1", features = ["macros", "rt-multi-thread"] }

[package]
name = "ecr_report"
version = "0.1.0"
edition = "2021"
publish = false

[dependencies]
aws-config = "*"
aws-sdk-ecr = "*"
tokio = { version = "*", features = ["macros", "rt-multi-thread"] }

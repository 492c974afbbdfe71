[package]
name = "queue_shift"
version = "0.1.0"
edition = "2021"
publish = false

[dependencies]
clap = "2"
dirs = "*"
futures = "0.3"
rusoto_core = "0.48"
rusoto_sqs = "0.48"
tokio = { version = "1", features = ["macros", "rt-multi-thread"] }

[package]
name = "xet_progress"
version = "0.1.0"
edition = "2021"
publish = false

[dependencies]
more-asserts = "0.3"
tokio = { version = "1", features = ["macros", "rt", "sync", "time"] }

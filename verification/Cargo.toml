[package]
name = "code_runner"
version = "0.1.0"
edition = "2021"
publish = false

[dependencies]
regex = "1"
serenity = "0.11"
tokio = { version = "1", features = ["macros", "rt-multi-thread", "process", "signal", "time", "io-util", "sync"] }
tracing = "0.1"
tracing-subscriber = "0.3"
dotenv = "0.15"

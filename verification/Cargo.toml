[package]
name = "whisper_gui"
version = "0.1.0"
edition = "2021"
publish = false

[dependencies]
dirs = "*"
serde = { version = "*", features = ["derive"] }
tokio = { version = "*", features = ["fs", "io-util", "macros", "process", "rt", "rt-multi-thread", "sync"] }
reqwest = { version = "*", default-features = false, features = ["stream"] }
futures-util = "*"

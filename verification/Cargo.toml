[package]
name = "chatto"
version = "0.1.0"
edition = "2021"
publish = false

[dependencies]
serde = { version = "*", features = ["derive"] }
serde_json = "*"
serde_yaml = "*"
clap = { version = "*", features = ["derive"] }
config = "*"
futures = "*"
futures-util = "*"
reqwest = { version = "*", default-features = false, features = ["json", "stream"] }
rustyline = "*"
strum = { version = "*", features = ["derive"] }
tempfile = "*"
tokio = { version = "*", features = ["macros", "rt-multi-thread"] }

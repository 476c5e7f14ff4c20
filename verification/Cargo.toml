[package]
name = "parakeet_bot"
version = "0.1.0"
edition = "2021"
publish = false

[dependencies]
async-trait = "0.1"
bon = "3"
delegate = "0.13"
itertools = "0.13"
proc-macro2 = "1"
quote = "1"
serde = { version = "1", features = ["derive"] }
serde_json = "1"
serde_path_to_error = "0.1"
syn = { version = "1", features = ["full"] }
thiserror = "1"
tokio = { version = "1", features = ["macros", "rt-multi-thread", "process", "sync", "time"] }
toml = "0.8"
tracing = "0.1"
tracing-appender = "0.2"
tracing-subscriber = { version = "0.3", features = ["chrono"] }
url = "2"

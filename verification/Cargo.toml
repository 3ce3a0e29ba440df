[package]
name = "corrupttest"
version = "0.1.0"
edition = "2021"
publish = false

[dependencies]
clap = "*"
csv = "*"
ctrlc = "*"
prettytable-rs = "*"
regex = "*"
reqwest = { version = "*", default-features = false }
serde = { version = "*", features = ["derive"] }
slog = "*"
slog-async = "*"
slog-term = "*"
sqlx = { version = "*", default-features = false, features = ["runtime-tokio", "mysql"] }
tokio = { version = "*", features = ["rt-multi-thread", "macros"] }

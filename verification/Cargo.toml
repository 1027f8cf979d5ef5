[package]
name = "heliocron"
version = "0.1.0"
edition = "2021"
publish = false

[dependencies]
chrono = "0.4"
clap = { version = "3.2", features = ["derive"] }
crossterm = "*"
dirs = "*"
errno = "*"
libc = "0.2"
serde = { version = "1", features = ["derive"] }
serde_json = "1"
tokio = { version = "1", features = ["macros", "rt", "signal", "time"] }
toml = "0.5"

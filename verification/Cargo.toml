[package]
name = "gosh"
version = "0.1.0"
edition = "2021"
publish = false

[dependencies]
gosh-dl = "*"
uuid = "*"
urlencoding = "*"
humantime = "*"
chrono = { version = "*", default-features = false, features = ["clock", "std"] }
anyhow = "*"
clap = { version = "*", features = ["derive", "env"] }
clap_complete = "*"
directories = "*"
dirs = "*"
indicatif = "*"
serde = { version = "*", features = ["derive"] }
serde_json = "*"
tokio = { version = "*", features = ["rt-multi-thread", "macros", "signal", "fs", "sync", "time"] }
toml = "*"

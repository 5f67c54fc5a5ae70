[package]
name = "git_progress_sync"
version = "0.1.0"
edition = "2021"
publish = false

[dependencies]
clap = { version = "*", features = ["derive"] }
colored = "*"
directories = "*"
serde = { version = "*", features = ["derive"] }
thiserror = "*"
toml = "*"

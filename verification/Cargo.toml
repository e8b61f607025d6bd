[package]
name = "sssh"
version = "0.1.0"
edition = "2021"
publish = false

[dependencies]
anyhow = "1"
atty = "0.2"
backtrace = "0.3"
clap = { version = "4", features = ["derive", "env", "cargo"] }
crossterm = "0.25"
dirs = "4"
faccess = "0.2"
lazy_static = "1"
os_info = "3"
pathsearch = "0.2"
serde = { version = "1", features = ["derive"] }
thiserror = "1"
toml = "0.5"
tracing = "0.1"
tracing-subscriber = "0.3"
tui = "0.19"

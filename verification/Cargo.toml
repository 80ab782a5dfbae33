[package]
name = "simpi"
version = "0.1.0"
edition = "2021"
publish = false

[dependencies]
clap = "=2.34.0"
crossterm = "=0.17.7"
failure = "=0.1.8"
lazy_static = "=1.5.1"
serde_json = "=1.0.151"
shared_memory = "=0.12.4"
tui = { version = "=0.9.5", default-features = false, features = ["crossterm"] }

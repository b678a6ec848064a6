[package]
name = "ropencv"
version = "0.1.0"
edition = "2021"
publish = false
rust-version = "1.95"

[dependencies]
anyhow = "=1.0.104"
chrono = "=0.4.45"
crossbeam-channel = "=0.5.17"
log = "=0.4.34"
opencv = "=0.101.1"
regex = "=1.13.1"
serde = { version = "=1.0.229", features = ["derive"] }
simplelog = "=0.12.2"
# Not used directly: teloxide-core depends on it, and its release 0.1.2 asks for
# a newer compiler than rust-version above.
takecell = "<0.1.2"
teloxide = { version = "=0.17.0", features = ["macros"] }
tokio = { version = "=1.54.1", features = ["rt-multi-thread", "time", "macros"] }
toml = "=1.1.8"

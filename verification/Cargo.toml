[package]
name = "envchain"
version = "0.1.0"
edition = "2021"
publish = false

[dependencies]
keyring = "2"
clap = { version = "4", features = ["derive"] }
clap_complete_command = "*"
colored = "*"
directories = "*"
lazy_static = "1"
log = "*"
terminal-prompt = "*"
tracing = "*"
tracing-error = "*"
tracing-subscriber = { version = "*", features = ["env-filter"] }

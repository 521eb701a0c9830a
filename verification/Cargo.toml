[package]
name = "tpm2_call"
version = "0.1.0"
edition = "2021"
publish = false

[dependencies]
clap = { version = "4", features = ["derive"] }
clap-num = "*"
env_logger = "*"
log = "*"
tpm2-protocol = "*"

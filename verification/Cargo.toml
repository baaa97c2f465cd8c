[package]
name = "bldr_engine"
version = "0.1.0"
edition = "2021"
publish = false

[dependencies]
regex = "1"
url = "2"
clap = "2"
base64 = "*"
failure = "0.1"
failure_derive = "0.1"
log = "0.4"
env_logger = "0.4"
mktemp = "*"
ansi_term = "0.12"

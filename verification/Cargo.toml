[package]
name = "opcua"
version = "0.1.0"
edition = "2021"
publish = false

[dependencies]
chrono = "0.4"
futures = "0.1"
log = "0.4"
env_logger = "0.9"
lazy_static = "1"
clap = "2"

[package]
name = "stubborn_sink"
version = "0.1.0"
edition = "2021"
publish = false

[dependencies]
env_logger = "=0.4.3"
futures = "=0.1.31"
getopts = "=0.2.24"
log = "=0.3.9"
tokio-core = "=0.1.18"
tokio-timer = "=0.1.2"

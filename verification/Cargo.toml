[package]
name = "log_history_sink"
version = "0.1.0"
edition = "2021"
publish = false

[dependencies]
crossbeam-channel = "0.5"
log = "0.4"
log4rs = "1"
anyhow = "1"

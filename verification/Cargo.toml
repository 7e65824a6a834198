[package]
name = "run_script"
version = "0.1.0"
edition = "2021"
publish = false

[dependencies]
rand = "0.7"
users = "0.10"

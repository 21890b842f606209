[package]
name = "mini_tokio"
version = "0.1.0"
edition = "2021"
publish = false

[dependencies]
crossbeam = "0.8"
futures = "0.3"
num_cpus = "1"

[package]
name = "threadpool"
version = "0.1.0"
edition = "2021"
publish = false

[dependencies]
crossbeam-channel = "*"
jod-thread = "=1.0.0"
num_cpus = "=1.17.0"

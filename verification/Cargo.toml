[package]
name = "fanout"
version = "0.1.0"
edition = "2021"
publish = false

[dependencies]
anyhow = "*"
clap = { version = "*", features = ["derive"] }
num_cpus = "*"
spmc = "*"

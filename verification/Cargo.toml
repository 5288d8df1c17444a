[package]
name = "burninator"
version = "0.1.0"
edition = "2021"
publish = false

[dependencies]
anyhow = "1"
argh = "*"
num_cpus = "1"
wmi = "*"

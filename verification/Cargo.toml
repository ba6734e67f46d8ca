[package]
name = "net_harvest"
version = "0.1.0"
edition = "2021"
publish = false

[dependencies]
futures = "*"
regex = "*"
sysinfo = "*"

[package]
name = "ssh_host"
version = "0.1.0"
edition = "2021"
publish = false

[dependencies]
whoami = "=1.6.1"

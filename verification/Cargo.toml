[package]
name = "ssh_tunnel"
version = "0.1.0"
edition = "2021"
publish = false

[dependencies]
tokio = { version = "*", features = ["sync", "net", "rt", "rt-multi-thread", "io-util", "time", "macros"] }
russh = "*"
russh-keys = "*"
async-trait = "*"

[package]
name = "bustub"
version = "0.1.0"
edition = "2021"
publish = false

[dependencies]
sqlparser = "*"
comfy-table = "*"
rustyline = "*"
rand = "0.8"

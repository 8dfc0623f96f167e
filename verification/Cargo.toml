[package]
name = "power_mon"
version = "0.1.0"
edition = "2021"
publish = false

[dependencies]
rppal = "=0.14.1"
rusqlite = "=0.29.0"

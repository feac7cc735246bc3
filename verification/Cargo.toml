[package]
name = "journal"
version = "0.1.0"
edition = "2021"
publish = false

[dependencies]
anchor-lang = "*"

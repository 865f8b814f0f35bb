[package]
name = "persist_commands"
version = "0.1.0"
edition = "2021"

[dependencies]
base64 = "*"

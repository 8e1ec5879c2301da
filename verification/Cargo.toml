[package]
name = "ln_shell"
version = "0.1.0"
edition = "2021"
publish = false

[dependencies]
ldk-node = "*"
rustyline = "*"
anyhow = "*"

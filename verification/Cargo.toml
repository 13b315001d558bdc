[package]
name = "ftp_transfer"
version = "0.1.0"
edition = "2021"
publish = false

[dependencies]
regex = "*"
chrono = "*"
suppaftp = "*"
clap = { version = "*", features = ["derive"] }

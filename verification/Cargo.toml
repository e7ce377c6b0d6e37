[package]
name = "epochconv"
version = "0.1.0"
edition = "2021"
publish = false

[dependencies]
chrono = "*"
ansi_term = "*"
structopt = "*"
exitfailure = "*"
failure = "*"

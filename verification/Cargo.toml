[package]
name = "salmagundi"
version = "0.1.0"
edition = "2021"
publish = false

[dependencies]
regex = "*"
rand = "*"
syn = { version = "*", features = ["full", "visit", "visit-mut"] }
quote = "*"
either = "*"
structopt = "*"
